use upstream_sync::digest::DigestSink;
use upstream_sync::gitsync::GitStep;
use upstream_sync::orchestrator::Orchestrator;
use upstream_sync::upstream::mirror_entry;
use upstream_sync::upstream::DownloadVerdict;
use upstream_sync::upstream::Error;
use upstream_sync::upstream::FetchPlan;
use upstream_sync::upstream::ParseHashError;
use upstream_sync::upstream::RecipeUpstream;
use upstream_sync::upstream::SharePlan;
use upstream_sync::upstream::TreeCopyStep;
use upstream_sync::upstream::TreeEntryKind;
use upstream_sync::upstream::Upstream;
use upstream_sync::upstream::Uri;

fn plain_decl(hash: &str) -> RecipeUpstream {
    RecipeUpstream::Plain {
        uri: Uri::new(
            "https://example.org/src/foo-1.0.tar.gz".to_string(),
            "/src/foo-1.0.tar.gz".to_string(),
        ),
        hash: hash.to_string(),
        rename: None,
        strip_dirs: 0,
        unpack: true,
        unpack_dir: ".".to_string(),
    }
}

#[test]
fn from_recipe_validates_hash_eagerly() {
    match Upstream::from_recipe(plain_decl("abc")) {
        Err(Error::ParseHash(ParseHashError::TooShort(t))) => assert_eq!(t, "abc"),
        _ => panic!("a malformed hash aborts before any network activity"),
    }
}

#[test]
fn from_recipe_keeps_declared_fields() {
    let u = match Upstream::from_recipe(plain_decl("abcdef0123")) {
        Ok(u) => u,
        Err(_) => panic!("a five-plus character hash is accepted"),
    };
    assert_eq!(u.name(), "foo-1.0.tar.gz");
    match u {
        Upstream::Plain(p) => {
            assert_eq!(p.hash.as_str(), "abcdef0123");
            assert!(p.unpack);
            assert_eq!(p.unpack_dir, ".");
        }
        Upstream::Git(_) => panic!("a plain declaration stays plain"),
    }
}

#[test]
fn from_recipe_git_passes_through() {
    let decl = RecipeUpstream::Git {
        uri: Uri::new("https://example.org/pool/foo".to_string(), "/pool/foo".to_string()),
        ref_id: "deadbeef".to_string(),
        clone_dir: None,
        staging: true,
    };
    let u = match Upstream::from_recipe(decl) {
        Ok(u) => u,
        Err(_) => panic!("a git declaration always parses"),
    };
    match u {
        Upstream::Git(g) => {
            assert_eq!(g.ref_id, "deadbeef");
            assert!(g.staging);
            assert_eq!(g.name(), "foo");
        }
        Upstream::Plain(_) => panic!("a git declaration stays git"),
    }
}

#[test]
fn parse_upstreams_aborts_on_first_malformed() {
    let declared = vec![plain_decl("abcdef0123"), plain_decl("abc"), plain_decl("0123456789")];
    match upstream_sync::upstream::parse_upstreams(&declared) {
        Err(Error::ParseHash(ParseHashError::TooShort(t))) => assert_eq!(t, "abc"),
        _ => panic!("the first malformed entry aborts the whole parse"),
    }
}

#[test]
fn parse_upstreams_keeps_declaration_order() {
    let declared = vec![
        plain_decl("abcdef0123"),
        RecipeUpstream::Git {
            uri: Uri::new("https://example.org/pool/bar".to_string(), "/pool/bar".to_string()),
            ref_id: "deadbeef".to_string(),
            clone_dir: None,
            staging: false,
        },
    ];
    let parsed = upstream_sync::upstream::parse_upstreams(&declared)
        .ok()
        .expect("well-formed declarations parse");
    assert_eq!(parsed.len(), 2);
    assert_eq!(parsed[0].name(), "foo-1.0.tar.gz");
    assert_eq!(parsed[1].name(), "bar");
}

#[test]
fn mirror_steps_preserve_structure() {
    let step = mirror_entry(TreeEntryKind::Directory, "/t/sub".to_string(), "/s/sub".to_string());
    assert!(matches!(step, TreeCopyStep::Recurse { .. }));
    let step = mirror_entry(TreeEntryKind::File, "/t/f".to_string(), "/s/f".to_string());
    assert!(matches!(step, TreeCopyStep::CopyFile { .. }));
    let step = mirror_entry(TreeEntryKind::Symlink, "/t/l".to_string(), "/s/l".to_string());
    assert!(matches!(step, TreeCopyStep::Relink { .. }));
    let step = mirror_entry(TreeEntryKind::Other, "/t/o".to_string(), "/s/o".to_string());
    assert!(matches!(step, TreeCopyStep::Skip));
}

/// One plain and one git upstream, driven end to end through the models: the
/// shared directory ends up with `foo-1.0.tar.gz` (content verified against
/// its digest) and a tree `foo` synchronized at ref `deadbeef`.
#[test]
fn end_to_end_sync() {
    let content = b"example tarball bytes";
    let mut sink = DigestSink::new();
    sink.update(content);
    let digest = sink.finalize_hex();

    let declared = vec![
        plain_decl(&digest),
        RecipeUpstream::Git {
            uri: Uri::new("https://example.org/pool/foo".to_string(), "/pool/foo".to_string()),
            ref_id: "deadbeef".to_string(),
            clone_dir: None,
            staging: false,
        },
    ];

    // parse every declared upstream eagerly
    let upstreams: Vec<Upstream> = declared
        .into_iter()
        .map(|d| Upstream::from_recipe(d).ok().expect("declared upstreams are well-formed"))
        .collect();

    let mut orchestrator = Orchestrator::new(upstreams.len(), 2);
    let mut shared: Vec<String> = Vec::new();

    while !orchestrator.finished() {
        let Some(i) = orchestrator.start_next() else {
            panic!("nothing failed, so the run only pauses at its bound");
        };
        let installed = match &upstreams[i] {
            Upstream::Plain(p) => {
                let plan = p.fetch_plan("/cache", false);
                let path = match plan {
                    FetchPlan::Download { uri, path } => {
                        assert_eq!(uri, "https://example.org/src/foo-1.0.tar.gz");
                        path
                    }
                    FetchPlan::UseCached { .. } => panic!("first fetch is not cached"),
                };
                let mut sink = DigestSink::new();
                for chunk in content.chunks(7) {
                    sink.update(chunk);
                }
                match p.verify_download(sink.finalize_hex(), path) {
                    DownloadVerdict::Keep { installed } => installed,
                    DownloadVerdict::Discard { .. } => panic!("the digest matches"),
                }
            }
            Upstream::Git(g) => {
                let mut sync = g.begin_sync("/cache");
                sync.advance(false); // no tree yet
                while sync.step != GitStep::Done {
                    sync.advance(true); // every git command succeeds
                }
                sync.finish()
            }
        };
        match installed.share("/shared") {
            SharePlan::LinkOrCopy { target, .. } | SharePlan::MirrorTree { target, .. } => {
                shared.push(target);
            }
        }
        orchestrator.task_done(true);
    }

    shared.sort();
    assert_eq!(shared, ["/shared/foo", "/shared/foo-1.0.tar.gz"]);
}
