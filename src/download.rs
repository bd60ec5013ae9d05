//! Verified downloads: the bytes of an artifact are streamed into a
//! temporary file while a SHA-256 digest runs over the same bytes; only a
//! digest equal to the expected one lets the file be renamed onto its
//! destination.

use vstd::prelude::*;
use sha2::{Digest, Sha256};

verus! {

/// A running SHA-256 computation. Verus sees only [`absorbed`]: Verus
/// refuses to declare `sha2::Sha256` itself, whose type is built from a
/// chain of generic wrappers and type-level numbers.
#[verifier::external_body]
pub struct Sha256Stream {
    inner: Sha256,
}

/// The bytes that a SHA-256 hasher has taken in so far.
pub uninterp spec fn absorbed(h: Sha256Stream) -> Seq<u8>;

/// The SHA-256 digest of `data`.
pub uninterp spec fn sha256_of(data: Seq<u8>) -> Seq<u8>;

/// Relies on `sha2::Sha256::new` (`Digest::new`): a hasher that has taken
/// in nothing.
#[verifier::external_body]
fn sha256_new() -> (h: Sha256Stream)
    ensures
        absorbed(h) == Seq::<u8>::empty(),
{
    Sha256Stream { inner: Sha256::new() }
}

/// Relies on `Digest::update` for `sha2::Sha256`: the data is appended to
/// what the hasher has taken in.
#[verifier::external_body]
fn sha256_update(h: &mut Sha256Stream, data: &[u8])
    ensures
        absorbed(*final(h)) == absorbed(*old(h)) + data@,
{
    h.inner.update(data);
}

/// Relies on `Digest::finalize` for `sha2::Sha256`: the 32-byte digest of
/// all that the hasher took in.
#[verifier::external_body]
fn sha256_finish(h: Sha256Stream) -> (r: Vec<u8>)
    ensures
        r@ == sha256_of(absorbed(h)),
        r@.len() == 32,
{
    h.inner.finalize().to_vec()
}

} // verus!

verus! {

/// The sixteen lower-case hexadecimal digits.
pub open spec fn hex_digits() -> Seq<char> {
    seq!['0', '1', '2', '3', '4', '5', '6', '7', '8', '9', 'a', 'b', 'c', 'd', 'e', 'f']
}

/// The half-byte that the `j`-th hexadecimal digit of `b` shows.
pub open spec fn nibble(b: Seq<u8>, j: int) -> int {
    if j % 2 == 0 {
        b[j / 2] as int / 16
    } else {
        b[j / 2] as int % 16
    }
}

/// `b` in lower-case hexadecimal, two digits a byte, high half first.
pub open spec fn hex_lower(b: Seq<u8>) -> Seq<char> {
    Seq::new(2 * b.len(), |j: int| hex_digits()[nibble(b, j)])
}

/// `data` has the SHA-256 digest that `expected` spells in hexadecimal.
pub open spec fn verified(data: Seq<u8>, expected: Seq<char>) -> bool {
    expected == hex_lower(sha256_of(data))
}

/// `expected` spells `digest` in lower-case hexadecimal.
fn spells_hex(digest: &Vec<u8>, expected: &Vec<char>) -> (r: bool)
    ensures
        r == (expected@ == hex_lower(digest@)),
{
    let n = expected.len();
    if n % 2 != 0 || n / 2 != digest.len() {
        return false;
    }
    let table = vec!['0', '1', '2', '3', '4', '5', '6', '7', '8', '9', 'a', 'b', 'c', 'd', 'e', 'f'];
    assert(table@ =~= hex_digits());
    let mut j: usize = 0;
    while j < n
        invariant
            n == expected@.len(),
            n == 2 * digest@.len(),
            table@ == hex_digits(),
            j <= n,
            forall|k: int| 0 <= k < j ==> expected@[k] == #[trigger] hex_lower(digest@)[k],
        decreases n - j,
    {
        let b = digest[j / 2];
        let h = if j % 2 == 0 {
            b / 16
        } else {
            b % 16
        };
        assert(h as int == nibble(digest@, j as int));
        if expected[j] != table[h as usize] {
            assert(expected@[j as int] != hex_lower(digest@)[j as int]);
            return false;
        }
        j = j + 1;
    }
    assert(expected@ =~= hex_lower(digest@));
    true
}

/// One artifact being streamed: the digest runs over every chunk that is
/// written to the temporary file.
pub struct Download {
    hasher: Sha256Stream,
    expected: Vec<char>,
}

impl Download {
    /// The bytes received so far.
    pub closed spec fn received(&self) -> Seq<u8> {
        absorbed(self.hasher)
    }

    /// The expected digest, in hexadecimal.
    pub closed spec fn expected(&self) -> Seq<char> {
        self.expected@
    }

    /// Starts a download whose content must have the SHA-256 digest that
    /// `expected_sha256` spells in lower-case hexadecimal.
    pub fn new(expected_sha256: &str) -> (r: Download)
        ensures
            r.received() == Seq::<u8>::empty(),
            r.expected() == expected_sha256@,
    {
        Download { hasher: sha256_new(), expected: crate::text::chars_of(expected_sha256) }
    }

    /// Takes in the next chunk, which the caller writes to the temporary file.
    pub fn update(&mut self, chunk: &[u8])
        ensures
            final(self).received() == old(self).received() + chunk@,
            final(self).expected() == old(self).expected(),
    {
        sha256_update(&mut self.hasher, chunk);
    }

    /// Whether the content received may be published: its digest is the
    /// expected one. On `false` the temporary file is to be deleted.
    pub fn finish(self) -> (r: bool)
        ensures
            r == verified(self.received(), self.expected()),
    {
        let digest = sha256_finish(self.hasher);
        spells_hex(&digest, &self.expected)
    }
}

/// Path of the temporary file for a destination: never the destination.
pub open spec fn temp_path_spec(dest: Seq<char>) -> Seq<char> {
    dest + seq!['.', 'p', 'a', 'r', 't']
}

/// The temporary file that a download into `dest` writes to.
pub fn temp_path(dest: &str) -> (r: String)
    ensures
        r@ == temp_path_spec(dest@),
        r@ != dest@,
{
    proof {
        reveal_strlit(".part");
        assert(".part"@ =~= seq!['.', 'p', 'a', 'r', 't']);
    }
    let mut r = String::new();
    r.append(dest);
    r.append(".part");
    assert(r@.len() != dest@.len());
    r
}

/// Why a download failed.
pub enum DownloadError {
    /// The connection failed or broke off.
    Transport(String),
    /// The server answered with a status other than success.
    Status(u16),
    /// The content's digest differs from the expected one.
    ChecksumMismatch,
    /// The temporary file could not be written or renamed.
    Io(String),
}

/// Whether a failed download from the version-pinned location is retried
/// from the unpinned one: only when the artifact was not found there.
pub fn try_fallback(e: &DownloadError) -> (r: bool)
    ensures
        r <==> (*e matches DownloadError::Status(s) && s == 404),
{
    match e {
        DownloadError::Status(s) => *s == 404,
        _ => false,
    }
}

/// What a download leaves on disk: the temporary file and the destination.
pub struct DiskModel {
    pub temp: Option<Seq<u8>>,
    pub dest: Option<Seq<u8>>,
}

/// Disk when a download begins: the temporary file is created empty, or
/// emptied if a former attempt left one behind.
pub open spec fn begin(d: DiskModel) -> DiskModel {
    DiskModel { temp: Some(Seq::empty()), dest: d.dest }
}

/// Disk after one chunk is appended to the temporary file.
pub open spec fn write_chunk(d: DiskModel, chunk: Seq<u8>) -> DiskModel {
    DiskModel {
        temp: Some(
            match d.temp {
                Some(t) => t + chunk,
                None => chunk,
            },
        ),
        dest: d.dest,
    }
}

/// Disk after the stream ends: the temporary file is renamed onto the
/// destination when `publish` holds, and deleted otherwise.
pub open spec fn conclude(d: DiskModel, publish: bool) -> DiskModel {
    match d.temp {
        Some(t) => if publish {
            DiskModel { temp: None, dest: Some(t) }
        } else {
            DiskModel { temp: None, dest: d.dest }
        },
        None => d,
    }
}

/// All the chunks, one after another.
pub open spec fn concat_all(chunks: Seq<Seq<u8>>) -> Seq<u8>
    decreases chunks.len(),
{
    if chunks.len() == 0 {
        Seq::empty()
    } else {
        concat_all(chunks.drop_last()) + chunks.last()
    }
}

/// Disk after a download began and the chunks were written, in order.
pub open spec fn streamed(d: DiskModel, chunks: Seq<Seq<u8>>) -> DiskModel
    decreases chunks.len(),
{
    if chunks.len() == 0 {
        begin(d)
    } else {
        write_chunk(streamed(d, chunks.drop_last()), chunks.last())
    }
}

/// Disk after a whole download whose digest is checked against `expected`,
/// as [`Download::finish`] decides.
pub open spec fn downloaded(d: DiskModel, chunks: Seq<Seq<u8>>, expected: Seq<char>) -> DiskModel {
    conclude(streamed(d, chunks), verified(concat_all(chunks), expected))
}

proof fn lemma_streamed(d: DiskModel, chunks: Seq<Seq<u8>>)
    ensures
        streamed(d, chunks).dest == d.dest,
        streamed(d, chunks).temp == Some(concat_all(chunks)),
    decreases chunks.len(),
{
    if chunks.len() > 0 {
        lemma_streamed(d, chunks.drop_last());
    }
}

/// However far a download got before it was interrupted, the destination
/// holds what it held before; once the stream has ended it holds either
/// that, or exactly the content received, whose digest is the expected one.
/// Chunks may have any size, so the interruption may fall at any byte.
pub proof fn lemma_destination_never_partial(
    d: DiskModel,
    chunks: Seq<Seq<u8>>,
    k: int,
    expected: Seq<char>,
)
    requires
        0 <= k <= chunks.len(),
    ensures
        streamed(d, chunks.subrange(0, k)).dest == d.dest,
        downloaded(d, chunks, expected).dest == d.dest || (downloaded(d, chunks, expected).dest
            == Some(concat_all(chunks)) && verified(concat_all(chunks), expected)),
        downloaded(d, chunks, expected).temp is None,
{
    lemma_streamed(d, chunks.subrange(0, k));
    lemma_streamed(d, chunks);
}

/// Content whose digest differs from the expected one never reaches the
/// destination, and its temporary file is gone.
pub proof fn lemma_mismatch_never_published(d: DiskModel, chunks: Seq<Seq<u8>>, expected: Seq<char>)
    requires
        !verified(concat_all(chunks), expected),
    ensures
        downloaded(d, chunks, expected).dest == d.dest,
        downloaded(d, chunks, expected).temp is None,
{
    lemma_streamed(d, chunks);
}

} // verus!
