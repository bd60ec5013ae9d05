//! The cache store and the model resolver's decisions: where the model and
//! tokenizer live, when the cache may be trusted, and in which order it is
//! filled.

use vstd::prelude::*;
use vstd::string::*;
use crate::text::{chars_of, matches_at, trim_bounds, trimmed};

verus! {

/// Where the model weights and the tokenizer description are.
pub struct ModelPaths {
    pub model_path: String,
    pub tokenizer_path: String,
}

/// The checksums of the artifacts that this build expects.
pub struct ContentIdentity {
    pub model_sha256: String,
    pub tokenizer_sha256: String,
}

/// Where releases are published: a repository identity and the running version.
pub struct Release {
    pub repo: String,
    pub version: String,
}

/// The files of the cache store.
pub struct CacheLayout {
    pub dir: String,
    pub model_path: String,
    pub tokenizer_path: String,
    pub marker_path: String,
}

pub open spec fn model_file() -> Seq<char> {
    "shit.gguf"@
}

pub open spec fn tokenizer_file() -> Seq<char> {
    "tokenizer.json"@
}

pub open spec fn marker_file() -> Seq<char> {
    ".model-hash"@
}

pub open spec fn app_dir() -> Seq<char> {
    "shit"@
}

pub open spec fn model_asset() -> Seq<char> {
    "shit-ops.q4.gguf"@
}

/// `name` inside directory `dir`.
pub open spec fn join_spec(dir: Seq<char>, name: Seq<char>) -> Seq<char> {
    if dir.len() == 0 || dir.last() == '/' {
        dir + name
    } else {
        dir + seq!['/'] + name
    }
}

/// The path of `name` inside directory `dir`.
pub fn join(dir: &str, name: &str) -> (r: String)
    ensures
        r@ == join_spec(dir@, name@),
{
    proof {
        reveal_strlit("/");
        assert("/"@ =~= seq!['/']);
    }
    let v = chars_of(dir);
    let mut r = String::new();
    r.append(dir);
    if v.len() > 0 && v[v.len() - 1] != '/' {
        r.append("/");
    }
    r.append(name);
    r
}

/// The cache store inside the platform's data directory.
pub fn cache_layout(data_dir: &str) -> (r: CacheLayout)
    ensures
        r.dir@ == join_spec(data_dir@, app_dir()),
        r.model_path@ == join_spec(r.dir@, model_file()),
        r.tokenizer_path@ == join_spec(r.dir@, tokenizer_file()),
        r.marker_path@ == join_spec(r.dir@, marker_file()),
{
    let dir = join(data_dir, "shit");
    let model_path = join(dir.as_str(), "shit.gguf");
    let tokenizer_path = join(dir.as_str(), "tokenizer.json");
    let marker_path = join(dir.as_str(), ".model-hash");
    CacheLayout { dir, model_path, tokenizer_path, marker_path }
}

/// The files that, placed in `dir` (the running program's directory),
/// override the cache.
pub fn override_paths(dir: &str) -> (r: ModelPaths)
    ensures
        r.model_path@ == join_spec(dir@, model_file()),
        r.tokenizer_path@ == join_spec(dir@, tokenizer_file()),
{
    ModelPaths { model_path: join(dir, "shit.gguf"), tokenizer_path: join(dir, "tokenizer.json") }
}

/// The marker string of a content identity: both checksums, a space between.
pub open spec fn marker_spec(model_sha256: Seq<char>, tokenizer_sha256: Seq<char>) -> Seq<char> {
    model_sha256 + seq![' '] + tokenizer_sha256
}

/// The marker string that a complete cache of this identity holds.
pub fn expected_marker(id: &ContentIdentity) -> (r: String)
    ensures
        r@ == marker_spec(id.model_sha256@, id.tokenizer_sha256@),
{
    proof {
        reveal_strlit(" ");
        assert(" "@ =~= seq![' ']);
    }
    let mut r = String::new();
    r.append(id.model_sha256.as_str());
    r.append(" ");
    r.append(id.tokenizer_sha256.as_str());
    r
}

/// A cache is valid when its marker, trimmed, is the expected string and
/// both artifacts exist. A missing marker reads as empty.
pub open spec fn cache_valid(
    marker: Seq<char>,
    expected: Seq<char>,
    model_exists: bool,
    tokenizer_exists: bool,
) -> bool {
    trimmed(marker) == expected && model_exists && tokenizer_exists
}

/// Validity is exact: with the other two conditions holding, flipping any
/// one of marker equality, model presence or tokenizer presence flips it.
pub proof fn lemma_validity_exact(marker: Seq<char>, expected: Seq<char>, model: bool, tokenizer: bool)
    ensures
        model && tokenizer ==> (cache_valid(marker, expected, model, tokenizer) <==> trimmed(marker)
            == expected),
        trimmed(marker) == expected && tokenizer ==> (cache_valid(marker, expected, model, tokenizer)
            <==> model),
        trimmed(marker) == expected && model ==> (cache_valid(marker, expected, model, tokenizer)
            <==> tokenizer),
        cache_valid(marker, expected, model, tokenizer) ==> !cache_valid(
            marker,
            expected,
            !model,
            tokenizer,
        ) && !cache_valid(marker, expected, model, !tokenizer),
{
}

/// Whether the cache may be used as it is, without network or re-hashing.
pub fn cache_is_valid(marker: &str, expected: &str, model_exists: bool, tokenizer_exists: bool) -> (r:
    bool)
    ensures
        r == cache_valid(marker@, expected@, model_exists, tokenizer_exists),
{
    let v = chars_of(marker);
    let e = chars_of(expected);
    let (lo, hi) = trim_bounds(&v);
    let same = hi - lo == e.len() && matches_at(&v, &e, lo);
    assert(same ==> v@.subrange(lo as int, hi as int) =~= e@);
    same && model_exists && tokenizer_exists
}

/// Where the resolver finds the model.
pub enum Resolution {
    /// Both files lie next to the running program.
    DevOverride,
    /// The cache is valid.
    Cached,
    /// The cache has to be filled.
    Populate,
}

/// The resolver's choice, by priority: the files next to the program, then
/// a valid cache, else filling the cache.
pub fn resolve(
    override_model: bool,
    override_tokenizer: bool,
    marker: &str,
    expected: &str,
    model_exists: bool,
    tokenizer_exists: bool,
) -> (r: Resolution)
    ensures
        r == (if override_model && override_tokenizer {
            Resolution::DevOverride
        } else if cache_valid(marker@, expected@, model_exists, tokenizer_exists) {
            Resolution::Cached
        } else {
            Resolution::Populate
        }),
{
    if override_model && override_tokenizer {
        Resolution::DevOverride
    } else if cache_is_valid(marker, expected, model_exists, tokenizer_exists) {
        Resolution::Cached
    } else {
        Resolution::Populate
    }
}

/// Base of the release assets of one version.
pub open spec fn pinned_base(repo: Seq<char>, version: Seq<char>) -> Seq<char> {
    "https://github.com/"@ + repo + "/releases/download/v"@ + version
}

/// Base of the assets of the latest release.
pub open spec fn latest_base(repo: Seq<char>) -> Seq<char> {
    "https://github.com/"@ + repo + "/releases/latest/download"@
}

/// Location of asset `name` under `base`.
pub open spec fn asset_url(base: Seq<char>, name: Seq<char>) -> Seq<char> {
    base + "/"@ + name
}

fn url_of(base: &str, name: &str) -> (r: String)
    ensures
        r@ == asset_url(base@, name@),
{
    let mut r = String::new();
    r.append(base);
    r.append("/");
    r.append(name);
    r
}

/// Which artifact a step fetches.
#[derive(PartialEq, Eq, Structural)]
pub enum Artifact {
    Model,
    Tokenizer,
}

/// One step of filling the cache.
pub enum CacheTask {
    /// Download `url` (on not-found: `fallback_url`) into `dest`, checked
    /// against `sha256`.
    Fetch { artifact: Artifact, url: String, fallback_url: String, dest: String, sha256: String },
    /// Write the marker file.
    WriteMarker { path: String, contents: String },
}

/// The steps that fill the cache: the model, the tokenizer, and last the
/// marker, which declares the cache complete.
pub fn populate_plan(layout: &CacheLayout, id: &ContentIdentity, release: &Release) -> (r: Vec<
    CacheTask,
>)
    ensures
        is_populate_plan(r@, marker_spec(id.model_sha256@, id.tokenizer_sha256@)),
        r@[0] matches CacheTask::Fetch { artifact, url, fallback_url, dest, sha256 } && artifact
            == Artifact::Model && url@ == asset_url(
            pinned_base(release.repo@, release.version@),
            model_asset(),
        ) && fallback_url@ == asset_url(latest_base(release.repo@), model_asset()) && dest@
            == layout.model_path@ && sha256@ == id.model_sha256@,
        r@[1] matches CacheTask::Fetch { artifact, url, fallback_url, dest, sha256 } && artifact
            == Artifact::Tokenizer && url@ == asset_url(
            pinned_base(release.repo@, release.version@),
            tokenizer_file(),
        ) && fallback_url@ == asset_url(latest_base(release.repo@), tokenizer_file()) && dest@
            == layout.tokenizer_path@ && sha256@ == id.tokenizer_sha256@,
        r@[2] matches CacheTask::WriteMarker { path, contents } && path@ == layout.marker_path@,
{
    let mut pinned = String::new();
    pinned.append("https://github.com/");
    pinned.append(release.repo.as_str());
    pinned.append("/releases/download/v");
    pinned.append(release.version.as_str());
    let mut latest = String::new();
    latest.append("https://github.com/");
    latest.append(release.repo.as_str());
    latest.append("/releases/latest/download");
    let mut plan: Vec<CacheTask> = Vec::new();
    plan.push(
        CacheTask::Fetch {
            artifact: Artifact::Model,
            url: url_of(pinned.as_str(), "shit-ops.q4.gguf"),
            fallback_url: url_of(latest.as_str(), "shit-ops.q4.gguf"),
            dest: layout.model_path.clone(),
            sha256: id.model_sha256.clone(),
        },
    );
    plan.push(
        CacheTask::Fetch {
            artifact: Artifact::Tokenizer,
            url: url_of(pinned.as_str(), "tokenizer.json"),
            fallback_url: url_of(latest.as_str(), "tokenizer.json"),
            dest: layout.tokenizer_path.clone(),
            sha256: id.tokenizer_sha256.clone(),
        },
    );
    plan.push(CacheTask::WriteMarker { path: layout.marker_path.clone(), contents: expected_marker(id) });
    plan
}

/// A plan that fetches the model, then the tokenizer, then writes `marker`.
pub open spec fn is_populate_plan(plan: Seq<CacheTask>, marker: Seq<char>) -> bool {
    &&& plan.len() == 3
    &&& plan[0] matches CacheTask::Fetch { artifact, .. } && artifact == Artifact::Model
    &&& plan[1] matches CacheTask::Fetch { artifact, .. } && artifact == Artifact::Tokenizer
    &&& plan[2] matches CacheTask::WriteMarker { contents, .. } && contents@ == marker
}

/// What the resolver sees of the cache store.
pub struct CacheState {
    pub marker: Seq<char>,
    pub model: bool,
    pub tokenizer: bool,
}

/// The cache store after a step has been carried out.
pub open spec fn after_task(s: CacheState, t: CacheTask) -> CacheState {
    match t {
        CacheTask::Fetch { artifact, .. } => if artifact == Artifact::Model {
            CacheState { model: true, ..s }
        } else {
            CacheState { tokenizer: true, ..s }
        },
        CacheTask::WriteMarker { contents, .. } => CacheState { marker: contents@, ..s },
    }
}

/// The cache store after the steps have been carried out, in order.
pub open spec fn after_tasks(s: CacheState, ts: Seq<CacheTask>) -> CacheState
    decreases ts.len(),
{
    if ts.len() == 0 {
        s
    } else {
        after_task(after_tasks(s, ts.drop_last()), ts.last())
    }
}

/// A run of the filling plan cut short before its marker is written leaves a
/// cache whose marker was stale still invalid, so the next resolution
/// downloads again; the whole plan leaves a valid cache.
pub proof fn lemma_marker_written_last(
    s: CacheState,
    plan: Seq<CacheTask>,
    marker: Seq<char>,
    k: int,
)
    requires
        is_populate_plan(plan, marker),
        0 <= k < plan.len(),
    ensures
        trimmed(s.marker) != marker ==> !cache_valid(
            after_tasks(s, plan.subrange(0, k)).marker,
            marker,
            after_tasks(s, plan.subrange(0, k)).model,
            after_tasks(s, plan.subrange(0, k)).tokenizer,
        ),
        trimmed(marker) == marker ==> cache_valid(
            after_tasks(s, plan).marker,
            marker,
            after_tasks(s, plan).model,
            after_tasks(s, plan).tokenizer,
        ),
{
    let nothing_done = plan.subrange(0, 0);
    let model_done = plan.subrange(0, 1);
    let fetches_done = plan.subrange(0, 2);
    assert(model_done.drop_last() =~= nothing_done);
    assert(fetches_done.drop_last() =~= model_done);
    assert(plan.drop_last() =~= fetches_done);
    assert(after_tasks(s, nothing_done) == s);
    assert(after_tasks(s, model_done).marker == s.marker);
    assert(after_tasks(s, fetches_done).marker == s.marker);
    assert(after_tasks(s, fetches_done).model);
    assert(after_tasks(s, fetches_done).tokenizer);
}

} // verus!
