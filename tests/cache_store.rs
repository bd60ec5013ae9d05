use shit::cache::{
    cache_is_valid, cache_layout, expected_marker, join, override_paths, populate_plan, resolve,
    Artifact, CacheTask, ContentIdentity, Release, Resolution,
};

fn identity() -> ContentIdentity {
    ContentIdentity { model_sha256: "aa11".to_string(), tokenizer_sha256: "bb22".to_string() }
}

#[test]
fn marker_joins_both_checksums() {
    assert_eq!(expected_marker(&identity()), "aa11 bb22");
}

#[test]
fn validity_needs_every_condition() {
    assert!(cache_is_valid("aa11 bb22", "aa11 bb22", true, true));
    assert!(cache_is_valid("  aa11 bb22\n", "aa11 bb22", true, true));
    assert!(!cache_is_valid("aa11 bb23", "aa11 bb22", true, true));
    assert!(!cache_is_valid("aa11 bb22", "aa11 bb22", false, true));
    assert!(!cache_is_valid("aa11 bb22", "aa11 bb22", true, false));
    assert!(!cache_is_valid("", "aa11 bb22", true, true));
    assert!(!cache_is_valid("aa11  bb22", "aa11 bb22", true, true));
}

#[test]
fn resolution_priority() {
    assert!(matches!(resolve(true, true, "", "aa11 bb22", false, false), Resolution::DevOverride));
    assert!(matches!(resolve(true, false, "aa11 bb22", "aa11 bb22", true, true), Resolution::Cached));
    assert!(matches!(resolve(false, false, "stale", "aa11 bb22", true, true), Resolution::Populate));
}

#[test]
fn interrupted_population_is_redone() {
    // Artifacts were downloaded but the marker still holds the old identity.
    assert!(matches!(resolve(false, false, "old old", "aa11 bb22", true, true), Resolution::Populate));
}

#[test]
fn layout_under_data_dir() {
    let l = cache_layout("/home/u/.local/share");
    assert_eq!(l.dir, "/home/u/.local/share/shit");
    assert_eq!(l.model_path, "/home/u/.local/share/shit/shit.gguf");
    assert_eq!(l.tokenizer_path, "/home/u/.local/share/shit/tokenizer.json");
    assert_eq!(l.marker_path, "/home/u/.local/share/shit/.model-hash");
    assert_eq!(join("/", "x"), "/x");
    let o = override_paths("/opt/bin/");
    assert_eq!(o.model_path, "/opt/bin/shit.gguf");
    assert_eq!(o.tokenizer_path, "/opt/bin/tokenizer.json");
}

#[test]
fn plan_fetches_then_writes_marker() {
    let l = cache_layout("/d");
    let rel = Release { repo: "org/repo".to_string(), version: "1.2.3".to_string() };
    let plan = populate_plan(&l, &identity(), &rel);
    assert_eq!(plan.len(), 3);
    match &plan[0] {
        CacheTask::Fetch { artifact, url, fallback_url, dest, sha256 } => {
            assert!(*artifact == Artifact::Model);
            assert_eq!(url, "https://github.com/org/repo/releases/download/v1.2.3/shit-ops.q4.gguf");
            assert_eq!(fallback_url, "https://github.com/org/repo/releases/latest/download/shit-ops.q4.gguf");
            assert_eq!(dest, "/d/shit/shit.gguf");
            assert_eq!(sha256, "aa11");
        }
        _ => panic!("model first"),
    }
    match &plan[1] {
        CacheTask::Fetch { artifact, url, fallback_url, dest, sha256 } => {
            assert!(*artifact == Artifact::Tokenizer);
            assert_eq!(url, "https://github.com/org/repo/releases/download/v1.2.3/tokenizer.json");
            assert_eq!(fallback_url, "https://github.com/org/repo/releases/latest/download/tokenizer.json");
            assert_eq!(dest, "/d/shit/tokenizer.json");
            assert_eq!(sha256, "bb22");
        }
        _ => panic!("tokenizer second"),
    }
    match &plan[2] {
        CacheTask::WriteMarker { path, contents } => {
            assert_eq!(path, "/d/shit/.model-hash");
            assert_eq!(contents, "aa11 bb22");
        }
        _ => panic!("marker last"),
    }
}
