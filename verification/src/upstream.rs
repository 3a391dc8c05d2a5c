//! Declared build inputs and the content-addressed fetch cache: hash
//! validation, cache path layout, fetch planning, digest verification, and
//! publishing plans for the shared upstream directory.

use vstd::prelude::*;

verus! {

use vstd::string::StrSliceExecFns;
use vstd::string::StringExecFns;
use crate::text::last_segment;
use crate::text::last_segment_of;
use crate::text::strip_leading_slash;
use crate::text::strip_leading_slash_of;

/// A source location, held as the two plain values the engine reads from it:
/// the full URI text (handed to the network layer and to git) and its path
/// component.
pub struct Uri {
    pub text: String,
    pub path: String,
}

impl Uri {
    pub fn new(text: String, path: String) -> (r: Uri)
        ensures
            r.text@ == text@,
            r.path@ == path@,
    {
        Uri { text, path }
    }

    pub fn dup(&self) -> (r: Uri)
        ensures
            r == *self,
    {
        Uri { text: self.text.clone(), path: self.path.clone() }
    }
}

/// A declared upstream content hash: opaque text of at least five characters,
/// validated eagerly at parse time and never at use time.
pub struct Hash {
    text: String,
}

/// The rejection of a declared hash.
pub enum ParseHashError {
    /// The hash text has fewer than five characters; carries that text.
    TooShort(String),
}

impl View for Hash {
    type V = Seq<char>;

    closed spec fn view(&self) -> Seq<char> {
        self.text@
    }
}

impl Hash {
    #[verifier::type_invariant]
    spec fn wf(self) -> bool {
        self.text@.len() >= 5
    }

    /// Accepts any hash text of at least five characters, rejects shorter ones.
    pub fn parse(s: &str) -> (r: Result<Hash, ParseHashError>)
        ensures
            s@.len() >= 5 ==> (r matches Ok(h) && h@ == s@),
            s@.len() < 5 ==> (r matches Err(ParseHashError::TooShort(t)) && t@ == s@),
    {
        if s.unicode_len() < 5 {
            Err(ParseHashError::TooShort(String::from_str(s)))
        } else {
            Ok(Hash { text: String::from_str(s) })
        }
    }

    pub fn as_str(&self) -> (r: &str)
        ensures
            r@ == self@,
    {
        self.text.as_str()
    }

    pub fn dup(&self) -> (r: Hash)
        ensures
            r@ == self@,
    {
        proof {
            use_type_invariant(self);
        }
        Hash { text: self.text.clone() }
    }

    /// Whether the given text equals this hash, case-sensitive and full-length.
    pub fn matches(&self, other: &String) -> (r: bool)
        ensures
            r == (self@ == other@),
    {
        self.text == *other
    }
}

/// A failed upstream operation.
pub enum Error {
    /// A git subprocess exited with failure while syncing the carried source.
    GitFailed(Uri),
    /// The declared hash was rejected at parse time.
    ParseHash(ParseHashError),
    /// Fetched content whose digest does not equal the declared hash.
    HashMismatch { name: String, expected: String, got: String },
    /// The network layer failed; carries its message.
    Request(String),
    /// A filesystem operation failed; carries its message.
    Io(String),
}

/// A plain-file upstream declaration.
pub struct Plain {
    pub uri: Uri,
    pub hash: Hash,
    pub rename: Option<String>,
    pub strip_dirs: u8,
    pub unpack: bool,
    pub unpack_dir: String,
}

/// A version-controlled upstream declaration.
pub struct Git {
    pub uri: Uri,
    pub ref_id: String,
    pub clone_dir: Option<String>,
    pub staging: bool,
}

/// One upstream as the recipe collaborator declares it, before hash validation.
pub enum RecipeUpstream {
    Plain {
        uri: Uri,
        hash: String,
        rename: Option<String>,
        strip_dirs: u8,
        unpack: bool,
        unpack_dir: String,
    },
    Git { uri: Uri, ref_id: String, clone_dir: Option<String>, staging: bool },
}

impl RecipeUpstream {
    pub fn dup(&self) -> (r: RecipeUpstream)
        ensures
            r == *self,
    {
        match self {
            RecipeUpstream::Plain { uri, hash, rename, strip_dirs, unpack, unpack_dir } => {
                RecipeUpstream::Plain {
                    uri: uri.dup(),
                    hash: hash.clone(),
                    rename: match rename {
                        Some(n) => Some(n.clone()),
                        None => None,
                    },
                    strip_dirs: *strip_dirs,
                    unpack: *unpack,
                    unpack_dir: unpack_dir.clone(),
                }
            },
            RecipeUpstream::Git { uri, ref_id, clone_dir, staging } => {
                RecipeUpstream::Git {
                    uri: uri.dup(),
                    ref_id: ref_id.clone(),
                    clone_dir: match clone_dir {
                        Some(d) => Some(d.clone()),
                        None => None,
                    },
                    staging: *staging,
                }
            },
        }
    }
}

/// A validated upstream: exactly one variant per declared input.
pub enum Upstream {
    Plain(Plain),
    Git(Git),
}

/// The verified, locally materialized result of fetching one upstream.
pub enum Installed {
    Plain { name: String, path: String, was_cached: bool },
    Git { name: String, path: String, was_cached: bool },
}

/// The next move for one plain upstream, decided from whether its cache path
/// already exists.
pub enum FetchPlan {
    /// Already cached: presence of the path is trusted as proof of prior
    /// verification, and no network work happens.
    UseCached { installed: Installed },
    /// Stream `uri` into `path`, feeding every chunk to the digest sink.
    Download { uri: String, path: String },
}

/// The decision once a download's stream is exhausted and digested.
pub enum DownloadVerdict {
    /// The digest equals the declared hash: the artifact is verified.
    Keep { installed: Installed },
    /// Mismatch: the partially written file at `path` must be deleted; the
    /// cache never retains content whose hash was not verified.
    Discard { path: String, error: Error },
}

/// The content-addressed cache location for hash `h` under `root`:
/// `root/fetched/<first five>/<last five>/<full hash>`.
pub open spec fn spec_cache_path(root: Seq<char>, h: Seq<char>) -> Seq<char>
    recommends
        h.len() >= 5,
{
    root + "/fetched/"@ + h.subrange(0, 5) + "/"@ + h.subrange(h.len() - 5, h.len() as int)
        + "/"@ + h
}

/// Two plain upstreams with the same hash resolve to the same cache path,
/// whatever their URIs: dedup-by-construction is the sole "already cached"
/// mechanism.
pub proof fn lemma_cache_path_determinism(a: Plain, b: Plain, root: Seq<char>)
    requires
        a.hash@ == b.hash@,
    ensures
        spec_cache_path(root, a.hash@) == spec_cache_path(root, b.hash@),
{
}

impl Plain {
    /// The resolved artifact name: the rename when declared, else the last
    /// segment of the URI's path.
    pub open spec fn spec_name(self) -> Seq<char> {
        match self.rename {
            Some(n) => n@,
            None => last_segment(self.uri.path@),
        }
    }

    pub fn name(&self) -> (r: String)
        ensures
            r@ == self.spec_name(),
    {
        match &self.rename {
            Some(n) => n.clone(),
            None => last_segment_of(self.uri.path.as_str()),
        }
    }

    /// The cache path, derived deterministically from the hash alone.
    pub fn path(&self, cache_root: &str) -> (r: String)
        ensures
            r@ == spec_cache_path(cache_root@, self.hash@),
    {
        proof {
            use_type_invariant(&self.hash);
        }
        let h = self.hash.as_str();
        let n = h.unicode_len();
        let mut out = String::from_str(cache_root);
        out.append("/fetched/");
        out.append(h.substring_char(0, 5));
        out.append("/");
        out.append(h.substring_char(n - 5, n));
        out.append("/");
        out.append(h);
        proof {
            assert(out@ =~= spec_cache_path(cache_root@, self.hash@));
        }
        out
    }

    /// Decide the fetch: an existing cache path short-circuits with a cached
    /// artifact; otherwise the content must be downloaded to that path.
    pub fn fetch_plan(&self, cache_root: &str, cache_path_exists: bool) -> (r: FetchPlan)
        ensures
            cache_path_exists ==> (r matches FetchPlan::UseCached { installed }
                && installed matches Installed::Plain { name, path, was_cached }
                && name@ == self.spec_name() && path@ == spec_cache_path(cache_root@, self.hash@)
                && was_cached == true),
            !cache_path_exists ==> (r matches FetchPlan::Download { uri, path }
                && uri@ == self.uri.text@ && path@ == spec_cache_path(cache_root@, self.hash@)),
    {
        let path = self.path(cache_root);
        if cache_path_exists {
            FetchPlan::UseCached {
                installed: Installed::Plain { name: self.name(), path, was_cached: true },
            }
        } else {
            FetchPlan::Download { uri: self.uri.text.clone(), path }
        }
    }

    /// Compare the finalized digest against the declared hash: exact,
    /// case-sensitive, full-length. On mismatch the verdict orders the cache
    /// path deleted and carries the mismatch error.
    pub fn verify_download(&self, digest_hex: String, path: String) -> (r: DownloadVerdict)
        ensures
            digest_hex@ == self.hash@ ==> (r matches DownloadVerdict::Keep { installed }
                && installed matches Installed::Plain { name, path: p, was_cached }
                && name@ == self.spec_name() && p@ == path@ && was_cached == false),
            digest_hex@ != self.hash@ ==> (r matches DownloadVerdict::Discard { path: p, error }
                && p@ == path@ && (error matches Error::HashMismatch { name, expected, got }
                && name@ == self.spec_name() && expected@ == self.hash@
                && got@ == digest_hex@)),
    {
        if self.hash.matches(&digest_hex) {
            DownloadVerdict::Keep {
                installed: Installed::Plain { name: self.name(), path, was_cached: false },
            }
        } else {
            DownloadVerdict::Discard {
                path,
                error: Error::HashMismatch {
                    name: self.name(),
                    expected: String::from_str(self.hash.as_str()),
                    got: digest_hex,
                },
            }
        }
    }
}

/// The working-tree location for a git source under `root`:
/// `root/git/<uri path without its leading slash>`.
pub open spec fn spec_git_final_path(root: Seq<char>, uri_path: Seq<char>) -> Seq<char> {
    root + "/git/"@ + strip_leading_slash(uri_path)
}

/// The bare-mirror staging location for a git source under `root`:
/// `root/staging/git/<uri path without its leading slash>`.
pub open spec fn spec_git_staging_path(root: Seq<char>, uri_path: Seq<char>) -> Seq<char> {
    root + "/staging/git/"@ + strip_leading_slash(uri_path)
}

impl Git {
    pub open spec fn spec_name(self) -> Seq<char> {
        last_segment(self.uri.path@)
    }

    pub fn name(&self) -> (r: String)
        ensures
            r@ == self.spec_name(),
    {
        last_segment_of(self.uri.path.as_str())
    }

    /// The ref-resolved working tree used for builds, shared by every
    /// declaration of the same URI.
    pub fn final_path(&self, cache_root: &str) -> (r: String)
        ensures
            r@ == spec_git_final_path(cache_root@, self.uri.path@),
    {
        let rel = strip_leading_slash_of(self.uri.path.as_str());
        let mut out = String::from_str(cache_root);
        out.append("/git/");
        out.append(rel.as_str());
        proof {
            assert(out@ =~= spec_git_final_path(cache_root@, self.uri.path@));
        }
        out
    }

    /// The intermediate bare mirror, used only under the staging strategy.
    pub fn staging_path(&self, cache_root: &str) -> (r: String)
        ensures
            r@ == spec_git_staging_path(cache_root@, self.uri.path@),
    {
        let rel = strip_leading_slash_of(self.uri.path.as_str());
        let mut out = String::from_str(cache_root);
        out.append("/staging/git/");
        out.append(rel.as_str());
        proof {
            assert(out@ =~= spec_git_staging_path(cache_root@, self.uri.path@));
        }
        out
    }
}

impl Upstream {
    /// Validates a declared upstream eagerly: the hash is parsed here, never at
    /// use time, and a malformed entry is rejected before any network work.
    pub fn from_recipe(upstream: RecipeUpstream) -> (r: Result<Upstream, Error>)
        ensures
            upstream matches RecipeUpstream::Plain { hash, .. } ==> (hash@.len() < 5 ==> (r
                matches Err(Error::ParseHash(ParseHashError::TooShort(t))) && t@ == hash@)),
            upstream matches RecipeUpstream::Plain {
                uri,
                hash,
                rename,
                strip_dirs,
                unpack,
                unpack_dir,
            } ==> (hash@.len() >= 5 ==> (r matches Ok(Upstream::Plain(p)) && p.uri == uri
                && p.hash@ == hash@ && p.rename == rename && p.strip_dirs == strip_dirs
                && p.unpack == unpack && p.unpack_dir == unpack_dir)),
            upstream matches RecipeUpstream::Git { uri, ref_id, clone_dir, staging } ==> (r
                matches Ok(Upstream::Git(g)) && g.uri == uri && g.ref_id == ref_id
                && g.clone_dir == clone_dir && g.staging == staging),
    {
        match upstream {
            RecipeUpstream::Plain { uri, hash, rename, strip_dirs, unpack, unpack_dir } => {
                match Hash::parse(hash.as_str()) {
                    Ok(h) => Ok(
                        Upstream::Plain(
                            Plain { uri, hash: h, rename, strip_dirs, unpack, unpack_dir },
                        ),
                    ),
                    Err(e) => Err(Error::ParseHash(e)),
                }
            },
            RecipeUpstream::Git { uri, ref_id, clone_dir, staging } => {
                Ok(Upstream::Git(Git { uri, ref_id, clone_dir, staging }))
            },
        }
    }

    pub open spec fn spec_name(self) -> Seq<char> {
        match self {
            Upstream::Plain(p) => p.spec_name(),
            Upstream::Git(g) => g.spec_name(),
        }
    }

    pub fn name(&self) -> (r: String)
        ensures
            r@ == self.spec_name(),
    {
        match self {
            Upstream::Plain(p) => p.name(),
            Upstream::Git(g) => g.name(),
        }
    }
}

/// Whether a declaration parses: a plain entry needs a well-formed hash, a
/// git entry always does.
pub open spec fn decl_ok(d: RecipeUpstream) -> bool {
    match d {
        RecipeUpstream::Plain { hash, .. } => hash@.len() >= 5,
        RecipeUpstream::Git { .. } => true,
    }
}

/// The declared hash text of a plain entry (empty for git entries).
pub open spec fn spec_decl_hash(d: RecipeUpstream) -> Seq<char> {
    match d {
        RecipeUpstream::Plain { hash, .. } => hash@,
        RecipeUpstream::Git { .. } => Seq::empty(),
    }
}

/// What a well-formed declaration parses to, field for field.
pub open spec fn parses_to(d: RecipeUpstream, u: Upstream) -> bool {
    match (d, u) {
        (
            RecipeUpstream::Plain { uri, hash, rename, strip_dirs, unpack, unpack_dir },
            Upstream::Plain(p),
        ) => p.uri == uri && p.hash@ == hash@ && p.rename == rename && p.strip_dirs
            == strip_dirs && p.unpack == unpack && p.unpack_dir == unpack_dir,
        (RecipeUpstream::Git { uri, ref_id, clone_dir, staging }, Upstream::Git(g)) => g.uri
            == uri && g.ref_id == ref_id && g.clone_dir == clone_dir && g.staging == staging,
        _ => false,
    }
}

/// Parse every declared upstream eagerly, in order: one malformed entry
/// aborts the whole run before any network activity, with the first failure.
pub fn parse_upstreams(declared: &Vec<RecipeUpstream>) -> (r: Result<Vec<Upstream>, Error>)
    ensures
        (forall|i: int| 0 <= i < declared@.len() ==> decl_ok(#[trigger] declared@[i])) ==> (r
            matches Ok(us) && us@.len() == declared@.len() && forall|i: int|
            0 <= i < declared@.len() ==> parses_to(declared@[i], #[trigger] us@[i])),
        (exists|i: int| 0 <= i < declared@.len() && !decl_ok(#[trigger] declared@[i])) ==> (r
            matches Err(Error::ParseHash(ParseHashError::TooShort(t))) && exists|i: int|
            0 <= i < declared@.len() && !decl_ok(#[trigger] declared@[i]) && (forall|k: int|
                0 <= k < i ==> decl_ok(#[trigger] declared@[k])) && t@ == spec_decl_hash(
                declared@[i],
            )),
{
    let n = declared.len();
    let mut out: Vec<Upstream> = Vec::new();
    let mut i: usize = 0;
    while i < n
        invariant
            i <= n,
            n == declared@.len(),
            out@.len() == i,
            forall|k: int|
                0 <= k < i as int ==> decl_ok(#[trigger] declared@[k]) && parses_to(
                    declared@[k],
                    out@[k],
                ),
        decreases n - i,
    {
        let d = declared[i].dup();
        match Upstream::from_recipe(d) {
            Ok(u) => {
                out.push(u);
            },
            Err(e) => {
                proof {
                    assert(!decl_ok(declared@[i as int]));
                }
                return Err(e);
            },
        }
        i = i + 1;
    }
    Ok(out)
}

/// Publishing one artifact into the build-visible shared directory.
pub enum SharePlan {
    /// Hard-link `source` to `target` without following symlinks at the
    /// target; any link failure falls back to a full byte copy.
    LinkOrCopy { source: String, target: String },
    /// Recreate `target` from scratch and mirror the working tree at `source`
    /// into it, preserving symbolic links.
    MirrorTree { source: String, target: String },
}

impl Installed {
    pub open spec fn spec_was_cached(self) -> bool {
        match self {
            Installed::Plain { was_cached, .. } => was_cached,
            Installed::Git { was_cached, .. } => was_cached,
        }
    }

    pub open spec fn spec_name(self) -> Seq<char> {
        match self {
            Installed::Plain { name, .. } => name@,
            Installed::Git { name, .. } => name@,
        }
    }

    pub open spec fn spec_path(self) -> Seq<char> {
        match self {
            Installed::Plain { path, .. } => path@,
            Installed::Git { path, .. } => path@,
        }
    }

    /// Whether the fetch short-circuited on previously verified local state;
    /// observational only, it never affects correctness.
    pub fn was_cached(&self) -> (r: bool)
        ensures
            r == self.spec_was_cached(),
    {
        match self {
            Installed::Plain { was_cached, .. } => *was_cached,
            Installed::Git { was_cached, .. } => *was_cached,
        }
    }

    /// How to publish this artifact as `dest_dir/<name>`.
    pub fn share(&self, dest_dir: &str) -> (r: SharePlan)
        ensures
            *self matches Installed::Plain { .. } ==> (r matches SharePlan::LinkOrCopy {
                source,
                target,
            } && source@ == self.spec_path() && target@ == dest_dir@ + "/"@ + self.spec_name()),
            *self matches Installed::Git { .. } ==> (r matches SharePlan::MirrorTree {
                source,
                target,
            } && source@ == self.spec_path() && target@ == dest_dir@ + "/"@ + self.spec_name()),
    {
        match self {
            Installed::Plain { name, path, .. } => SharePlan::LinkOrCopy {
                source: path.clone(),
                target: crate::text::join_path(dest_dir, name.as_str()),
            },
            Installed::Git { name, path, .. } => SharePlan::MirrorTree {
                source: path.clone(),
                target: crate::text::join_path(dest_dir, name.as_str()),
            },
        }
    }
}

/// The kind of one directory entry met while mirroring a tree.
#[derive(Clone, Copy, Debug, PartialEq, Eq, Structural)]
pub enum TreeEntryKind {
    Directory,
    File,
    Symlink,
    Other,
}

/// One step of the structural tree copy.
pub enum TreeCopyStep {
    /// Mirror the subdirectory recursively.
    Recurse { source: String, dest: String },
    /// Copy the regular file's bytes.
    CopyFile { source: String, dest: String },
    /// Recreate the symbolic link at `dest`, pointing at the same target, not
    /// dereferenced.
    Relink { source: String, dest: String },
    /// Anything else is skipped.
    Skip,
}

/// The decision for one entry of a mirrored tree: subdirectories recurse,
/// regular files are copied by content, symlinks are recreated.
pub fn mirror_entry(kind: TreeEntryKind, source: String, dest: String) -> (r: TreeCopyStep)
    ensures
        kind == TreeEntryKind::Directory ==> (r matches TreeCopyStep::Recurse { source: s, dest: d }
            && s@ == source@ && d@ == dest@),
        kind == TreeEntryKind::File ==> (r matches TreeCopyStep::CopyFile { source: s, dest: d }
            && s@ == source@ && d@ == dest@),
        kind == TreeEntryKind::Symlink ==> (r matches TreeCopyStep::Relink { source: s, dest: d }
            && s@ == source@ && d@ == dest@),
        kind == TreeEntryKind::Other ==> r matches TreeCopyStep::Skip,
{
    match kind {
        TreeEntryKind::Directory => TreeCopyStep::Recurse { source, dest },
        TreeEntryKind::File => TreeCopyStep::CopyFile { source, dest },
        TreeEntryKind::Symlink => TreeCopyStep::Relink { source, dest },
        TreeEntryKind::Other => TreeCopyStep::Skip,
    }
}

} // verus!
