use upstream_sync::digest::DigestSink;
use upstream_sync::upstream::DownloadVerdict;
use upstream_sync::upstream::Error;
use upstream_sync::upstream::FetchPlan;
use upstream_sync::upstream::Installed;
use upstream_sync::upstream::Plain;
use upstream_sync::upstream::Uri;

const SHA256_ABC: &str = "ba7816bf8f01cfea414140de5dae2223b00361a396177a9cb410ff61f20015ad";
const SHA256_EMPTY: &str = "e3b0c44298fc1c149afbf4c8996fb92427ae41e4649b934ca495991b7852b855";

fn plain_with_hash(hash: &str) -> Plain {
    Plain {
        uri: Uri::new(
            "https://example.org/src/foo-1.0.tar.gz".to_string(),
            "/src/foo-1.0.tar.gz".to_string(),
        ),
        hash: upstream_sync::upstream::Hash::parse(hash).ok().expect("valid hash"),
        rename: None,
        strip_dirs: 0,
        unpack: false,
        unpack_dir: String::new(),
    }
}

#[test]
fn sink_digests_chunks() {
    let mut sink = DigestSink::new();
    sink.update(b"ab");
    sink.update(b"c");
    assert_eq!(sink.finalize_hex(), SHA256_ABC);
}

#[test]
fn sink_digest_of_nothing() {
    let sink = DigestSink::new();
    assert_eq!(sink.finalize_hex(), SHA256_EMPTY);
}

#[test]
fn fetch_plan_cache_hit_does_no_network() {
    let p = plain_with_hash(SHA256_ABC);
    match p.fetch_plan("/cache", true) {
        FetchPlan::UseCached { installed } => {
            assert!(installed.was_cached());
            match installed {
                Installed::Plain { name, path, .. } => {
                    assert_eq!(name, "foo-1.0.tar.gz");
                    assert_eq!(path, format!("/cache/fetched/ba781/015ad/{SHA256_ABC}"));
                }
                _ => panic!("a plain upstream installs a plain artifact"),
            }
        }
        FetchPlan::Download { .. } => panic!("an existing cache path must short-circuit"),
    }
}

#[test]
fn fetch_plan_downloads_when_absent() {
    let p = plain_with_hash(SHA256_ABC);
    match p.fetch_plan("/cache", false) {
        FetchPlan::Download { uri, path } => {
            assert_eq!(uri, "https://example.org/src/foo-1.0.tar.gz");
            assert_eq!(path, format!("/cache/fetched/ba781/015ad/{SHA256_ABC}"));
        }
        FetchPlan::UseCached { .. } => panic!("an absent cache path must download"),
    }
}

#[test]
fn verify_download_keeps_matching_content() {
    let p = plain_with_hash(SHA256_ABC);
    let mut sink = DigestSink::new();
    sink.update(b"abc");
    match p.verify_download(sink.finalize_hex(), "/cache/x".to_string()) {
        DownloadVerdict::Keep { installed } => {
            assert!(!installed.was_cached());
            match installed {
                Installed::Plain { name, path, .. } => {
                    assert_eq!(name, "foo-1.0.tar.gz");
                    assert_eq!(path, "/cache/x");
                }
                _ => panic!("a plain upstream installs a plain artifact"),
            }
        }
        DownloadVerdict::Discard { .. } => panic!("matching content must be kept"),
    }
}

#[test]
fn verify_download_discards_mismatch() {
    let p = plain_with_hash(SHA256_ABC);
    let mut sink = DigestSink::new();
    sink.update(b"abd");
    let got_hex = sink.finalize_hex();
    match p.verify_download(got_hex.clone(), "/cache/x".to_string()) {
        DownloadVerdict::Discard { path, error } => {
            assert_eq!(path, "/cache/x");
            match error {
                Error::HashMismatch { name, expected, got } => {
                    assert_eq!(name, "foo-1.0.tar.gz");
                    assert_eq!(expected, SHA256_ABC);
                    assert_eq!(got, got_hex);
                }
                _ => panic!("a digest mismatch raises Hash-Mismatch"),
            }
        }
        DownloadVerdict::Keep { .. } => panic!("mismatching content must be discarded"),
    }
}
