use upstream_sync::gitsync::GitAction;
use upstream_sync::gitsync::GitStep;
use upstream_sync::upstream::Error;
use upstream_sync::upstream::Git;
use upstream_sync::upstream::Installed;
use upstream_sync::upstream::Uri;

fn git(staging: bool) -> Git {
    Git {
        uri: Uri::new(
            "https://example.org/pool/foo".to_string(),
            "/pool/foo".to_string(),
        ),
        ref_id: "deadbeef".to_string(),
        clone_dir: None,
        staging,
    }
}

fn args_of(action: GitAction) -> (Vec<String>, Option<String>) {
    match action {
        GitAction::Run { args, cwd } => (args, cwd),
        _ => panic!("expected a git command"),
    }
}

#[test]
fn cached_branch_resets_to_ref() {
    let g = git(false);
    let mut sync = g.begin_sync("/c");

    match sync.action() {
        GitAction::ProbePath { path } => assert_eq!(path, "/c/git/pool/foo"),
        _ => panic!("the first step probes the final path"),
    }
    sync.advance(true); // the tree exists

    let (args, cwd) = args_of(sync.action());
    assert_eq!(args, ["fetch"]);
    assert_eq!(cwd.as_deref(), Some("/c/git/pool/foo"));
    sync.advance(true); // remote fetch succeeded

    let (args, _) = args_of(sync.action());
    assert_eq!(args, ["cat-file", "-e", "deadbeef"]);
    sync.advance(true); // the pinned ref resolves locally

    let (args, cwd) = args_of(sync.action());
    assert_eq!(args, ["reset", "--hard", "deadbeef"]);
    assert_eq!(cwd.as_deref(), Some("/c/git/pool/foo"));
    sync.advance(true); // hard reset to the pinned ref

    let (args, _) = args_of(sync.action());
    assert_eq!(
        args,
        ["submodule", "update", "--init", "--recursive", "--depth", "1", "--jobs", "4"]
    );
    sync.advance(true);

    assert_eq!(sync.step, GitStep::Done);
    match sync.finish() {
        Installed::Git { name, path, was_cached } => {
            assert_eq!(name, "foo");
            assert_eq!(path, "/c/git/pool/foo");
            assert!(was_cached);
        }
        _ => panic!("a git upstream installs a git artifact"),
    }
}

#[test]
fn fresh_branch_with_staging_clones_twice() {
    let g = git(true);
    let mut sync = g.begin_sync("/c");

    sync.advance(false); // no tree at the final path

    match sync.action() {
        GitAction::Clear { paths } => {
            assert_eq!(paths, ["/c/staging/git/pool/foo", "/c/git/pool/foo"]);
        }
        _ => panic!("stale directories are discarded before cloning"),
    }
    sync.advance(true);

    let (args, cwd) = args_of(sync.action());
    assert_eq!(
        args,
        ["clone", "--mirror", "--", "https://example.org/pool/foo", "/c/staging/git/pool/foo"]
    );
    assert_eq!(cwd, None);
    sync.advance(true);

    let (args, _) = args_of(sync.action());
    assert_eq!(args, ["clone", "--", "/c/staging/git/pool/foo", "/c/git/pool/foo"]);
    sync.advance(true);

    let (args, _) = args_of(sync.action());
    assert_eq!(args, ["reset", "--hard", "deadbeef"]);
    sync.advance(true);

    let (args, _) = args_of(sync.action());
    assert_eq!(args[0], "submodule");
    sync.advance(true);

    assert_eq!(sync.step, GitStep::Done);
    match sync.finish() {
        Installed::Git { name, was_cached, .. } => {
            assert_eq!(name, "foo");
            assert!(!was_cached);
        }
        _ => panic!("a git upstream installs a git artifact"),
    }
}

#[test]
fn unresolvable_ref_falls_back_to_fresh_clone() {
    let g = git(false);
    let mut sync = g.begin_sync("/c");
    sync.advance(true); // tree exists
    sync.advance(true); // fetch ok
    sync.advance(false); // ref does not resolve: clone afresh
    assert_eq!(sync.step, GitStep::ClearStale);
    sync.advance(true);
    let (args, _) = args_of(sync.action());
    assert_eq!(args, ["clone", "--", "https://example.org/pool/foo", "/c/git/pool/foo"]);
}

#[test]
fn failed_clone_aborts_with_git_error() {
    let g = git(false);
    let mut sync = g.begin_sync("/c");
    sync.advance(false); // no tree
    sync.advance(true); // cleared
    sync.advance(false); // clone failed
    assert_eq!(sync.step, GitStep::Failed);
    match sync.failure() {
        Error::GitFailed(uri) => assert_eq!(uri.text, "https://example.org/pool/foo"),
        _ => panic!("a git subprocess failure raises Git-Failed"),
    }
}

#[test]
fn failed_fetch_aborts() {
    let g = git(false);
    let mut sync = g.begin_sync("/c");
    sync.advance(true); // tree exists
    sync.advance(false); // remote fetch failed
    assert_eq!(sync.step, GitStep::Failed);
}
