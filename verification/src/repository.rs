//! Configured remote package repositories: identifiers, configuration
//! entries, per-repository on-disk layout, and the manager's error taxonomy.

use vstd::prelude::*;

verus! {

use crate::text::join_path;
use crate::upstream::Uri;

/// The opaque identifier a repository is keyed by.
pub struct RepoId {
    pub text: String,
}

impl RepoId {
    pub fn new(text: String) -> (r: RepoId)
        ensures
            r.text@ == text@,
    {
        RepoId { text }
    }

    pub fn dup(&self) -> (r: RepoId)
        ensures
            r == *self,
    {
        RepoId { text: self.text.clone() }
    }

    pub fn same_as(&self, other: &RepoId) -> (r: bool)
        ensures
            r == (self.text@ == other.text@),
    {
        self.text == other.text
    }
}

/// One configured remote repository.
pub struct Repository {
    /// Where its binary index file is fetched from.
    pub uri: Uri,
    /// Human description.
    pub description: String,
    /// Pinning order among repositories.
    pub priority: u64,
}

impl Repository {
    pub fn dup(&self) -> (r: Repository)
        ensures
            r == *self,
    {
        Repository {
            uri: self.uri.dup(),
            description: self.description.clone(),
            priority: self.priority,
        }
    }
}

/// An in-memory pairing of a configured repository with the location of its
/// open metadata store; lives only inside the owning manager.
pub struct ActiveRepo {
    pub id: RepoId,
    pub repository: Repository,
    /// The metadata store's database directory under this repository's
    /// directory.
    pub db_path: String,
}

impl ActiveRepo {
    pub fn dup(&self) -> (r: ActiveRepo)
        ensures
            r == *self,
    {
        ActiveRepo {
            id: self.id.dup(),
            repository: self.repository.dup(),
            db_path: self.db_path.clone(),
        }
    }
}

/// The root under which per-repository state lives, one directory per
/// identifier.
pub struct Installation {
    pub root: String,
}

/// The directory holding one repository's raw index file and store:
/// `root/<id>`.
pub open spec fn spec_repo_dir(root: Seq<char>, id: Seq<char>) -> Seq<char> {
    root + "/"@ + id
}

impl Installation {
    pub fn new(root: String) -> (r: Installation)
        ensures
            r.root@ == root@,
    {
        Installation { root }
    }

    pub fn dup(&self) -> (r: Installation)
        ensures
            r == *self,
    {
        Installation { root: self.root.clone() }
    }

    /// This repository's on-disk directory.
    pub fn repo_path(&self, id: &RepoId) -> (r: String)
        ensures
            r@ == spec_repo_dir(self.root@, id.text@),
    {
        join_path(self.root.as_str(), id.text.as_str())
    }
}

/// The field a metadata payload must carry to be keyed.
#[derive(Clone, Copy, Debug, PartialEq, Eq, Structural)]
pub enum MetaField {
    /// The package's own hash field, from which its identifier derives.
    PackageHash,
}

/// A failed repository-management operation.
pub enum Error {
    /// A well-formed metadata payload lacks the named required field.
    MissingMetaField(MetaField),
    /// Creating a repository directory failed; carries the message.
    CreateDir(String),
    /// Removing a repository directory failed; carries the message.
    RemoveDir(String),
    /// Downloading the remote index file failed; carries the message.
    FetchIndex(String),
    /// Decoding the downloaded index failed; carries the message.
    ReadStone(String),
    /// A metadata store operation failed; carries the message.
    Database(String),
    /// Persisting a repository's configuration failed; carries the message.
    SaveConfig(String),
    /// The operation referenced an identifier no repository is configured
    /// under.
    UnknownRepo(RepoId),
}

} // verus!
