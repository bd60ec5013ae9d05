use shit::download::{temp_path, try_fallback, Download, DownloadError};

const ABC: &str = "ba7816bf8f01cfea414140de5dae2223b00361a396177a9cb410ff61f20015ad";
const EMPTY: &str = "e3b0c44298fc1c149afbf4c8996fb92427ae41e4649b934ca495991b7852b855";

#[test]
fn matching_digest_is_published() {
    let mut d = Download::new(ABC);
    d.update(b"a");
    d.update(b"bc");
    assert!(d.finish());
}

#[test]
fn empty_content_digest() {
    let d = Download::new(EMPTY);
    assert!(d.finish());
}

#[test]
fn mismatching_digest_is_refused() {
    let mut d = Download::new(ABC);
    d.update(b"abd");
    assert!(!d.finish());
}

#[test]
fn upper_case_or_short_digest_is_refused() {
    let mut d = Download::new(&ABC.to_uppercase());
    d.update(b"abc");
    assert!(!d.finish());
    let mut d = Download::new(&ABC[..62]);
    d.update(b"abc");
    assert!(!d.finish());
}

#[test]
fn temporary_file_is_not_destination() {
    assert_eq!(temp_path("/c/shit.gguf"), "/c/shit.gguf.part");
}

#[test]
fn fallback_only_on_not_found() {
    assert!(try_fallback(&DownloadError::Status(404)));
    assert!(!try_fallback(&DownloadError::Status(500)));
    assert!(!try_fallback(&DownloadError::ChecksumMismatch));
    assert!(!try_fallback(&DownloadError::Transport("reset".to_string())));
}

#[test]
fn truncated_content_is_never_published() {
    let content = b"abc";
    for cut in 0..content.len() {
        let mut d = Download::new(ABC);
        for chunk in content[..cut].chunks(2) {
            d.update(chunk);
        }
        assert!(!d.finish(), "cut at byte {cut}");
    }
}
