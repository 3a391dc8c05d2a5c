//! The repository manager: the configured set of repositories, each paired
//! with its metadata store location, keyed uniquely by identifier.

use vstd::prelude::*;

pub use crate::repository::Error;

verus! {

use vstd::string::StringExecFns;
use crate::repository::ActiveRepo;
use crate::repository::Installation;
use crate::repository::RepoId;
use crate::repository::Repository;
use crate::repository::spec_repo_dir;

/// The index file's fixed location under a repository's directory.
pub open spec fn spec_index_path(root: Seq<char>, id: Seq<char>) -> Seq<char> {
    spec_repo_dir(root, id) + "/stone.index"@
}

/// The metadata store's directory under a repository's directory.
pub open spec fn spec_db_path(root: Seq<char>, id: Seq<char>) -> Seq<char> {
    spec_repo_dir(root, id) + "/db"@
}

/// Everything the driver needs to refresh one repository: download the index
/// to its fixed path, wipe the store, then ingest the planned batches.
pub struct RefreshTarget {
    pub id: RepoId,
    /// Where the remote index is downloaded from.
    pub index_uri: String,
    /// The fixed on-disk location of the downloaded index (overwritten in
    /// place).
    pub index_path: String,
    /// The metadata store directory to wipe and repopulate.
    pub db_path: String,
}

/// Manage a bunch of configured repositories.
pub struct Manager {
    installation: Installation,
    repositories: Vec<ActiveRepo>,
}

impl Manager {
    /// The configured entries, in insertion order.
    pub closed spec fn repos(self) -> Seq<ActiveRepo> {
        self.repositories@
    }

    /// The installation root the per-repository directories live under.
    pub closed spec fn root(self) -> Seq<char> {
        self.installation.root@
    }

    /// Identifiers are unique keys.
    pub open spec fn wf(self) -> bool {
        forall|i: int, j: int|
            0 <= i < j < self.repos().len() ==> (#[trigger] self.repos()[i]).id.text@ != (
            #[trigger] self.repos()[j]).id.text@
    }

    /// Whether some repository is configured under this identifier.
    pub open spec fn spec_has(self, id: Seq<char>) -> bool {
        exists|i: int|
            0 <= i < self.repos().len() && (#[trigger] self.repos()[i]).id.text@ == id
    }

    /// Build a manager from the loaded configuration entries (an absent
    /// config yields the empty list, which is not an error), pairing each
    /// repository with its metadata store directory.
    pub fn new(installation: Installation, configs: Vec<(RepoId, Repository)>) -> (r: Manager)
        requires
            forall|i: int, j: int|
                0 <= i < j < configs@.len() ==> (#[trigger] configs@[i]).0.text@ != (
                #[trigger] configs@[j]).0.text@,
        ensures
            r.wf(),
            r.root() == installation.root@,
            r.repos().len() == configs@.len(),
            forall|i: int|
                0 <= i < configs@.len() ==> (#[trigger] r.repos()[i]).id == configs@[i].0
                    && r.repos()[i].repository == configs@[i].1 && r.repos()[i].db_path@
                    == spec_db_path(installation.root@, configs@[i].0.text@),
    {
        let n = configs.len();
        let mut repositories: Vec<ActiveRepo> = Vec::new();
        let mut i: usize = 0;
        while i < n
            invariant
                i <= n,
                n == configs@.len(),
                repositories@.len() == i,
                forall|k: int|
                    0 <= k < i as int ==> (#[trigger] repositories@[k]).id == configs@[k].0
                        && repositories@[k].repository == configs@[k].1
                        && repositories@[k].db_path@ == spec_db_path(
                        installation.root@,
                        configs@[k].0.text@,
                    ),
            decreases n - i,
        {
            let (id, repository) = &configs[i];
            let mut db_path = installation.repo_path(id);
            db_path.append("/db");
            repositories.push(
                ActiveRepo { id: id.dup(), repository: repository.dup(), db_path },
            );
            i = i + 1;
        }
        Manager { installation, repositories }
    }

    /// The index of the entry configured under `id`, when there is one.
    fn find_index(&self, id: &RepoId) -> (r: Option<usize>)
        ensures
            r matches Some(i) ==> i < self.repos().len() && self.repos()[i as int].id.text@
                == id.text@,
            r is None ==> !self.spec_has(id.text@),
    {
        let n = self.repositories.len();
        let mut i: usize = 0;
        while i < n
            invariant
                i <= n,
                n == self.repos().len(),
                forall|k: int| 0 <= k < i as int ==> (#[trigger] self.repos()[k]).id.text@
                    != id.text@,
            decreases n - i,
        {
            if self.repositories[i].id.same_as(id) {
                return Some(i);
            }
            i = i + 1;
        }
        None
    }

    /// Add (or replace) a repository under its identifier: the entry is paired
    /// with its metadata store directory and inserted into the configured set.
    /// Persisting the single-entry config mapping is the caller's subsequent
    /// step, against `repo_dir`.
    pub fn add_repository(&mut self, id: RepoId, repository: Repository)
        requires
            old(self).wf(),
        ensures
            final(self).wf(),
            final(self).root() == old(self).root(),
            final(self).spec_has(id.text@),
            old(self).spec_has(id.text@) ==> final(self).repos().len()
                == old(self).repos().len(),
            !old(self).spec_has(id.text@) ==> final(self).repos().len()
                == old(self).repos().len() + 1,
            forall|i: int|
                0 <= i < old(self).repos().len() && (#[trigger] old(self).repos()[i]).id.text@
                    != id.text@ ==> final(self).repos()[i] == old(self).repos()[i],
            exists|i: int|
                0 <= i < final(self).repos().len() && (#[trigger] final(self).repos()[i]).id
                    == id && final(self).repos()[i].repository == repository
                    && final(self).repos()[i].db_path@ == spec_db_path(
                    old(self).root(),
                    id.text@,
                ),
    {
        let mut db_path = self.installation.repo_path(&id);
        db_path.append("/db");
        let row = ActiveRepo { id, repository, db_path };
        match self.find_index(&row.id) {
            Some(i) => {
                self.repositories[i] = row;
                proof {
                    let s_old = old(self).repos();
                    let s_new = self.repos();
                    assert(s_new[i as int].id.text@ == id.text@);
                    assert forall|a: int| 0 <= a < s_new.len() implies (#[trigger] s_new[a]).id.text@
                        == s_old[a].id.text@ by {
                        if a != i as int {
                            assert(s_new[a] == s_old[a]);
                        }
                    }
                    assert(self.spec_has(id.text@));
                }
            },
            None => {
                self.repositories.push(row);
                proof {
                    let s_old = old(self).repos();
                    let s_new = self.repos();
                    let last = s_new.len() - 1;
                    assert(s_new[last].id.text@ == id.text@);
                    assert(self.spec_has(id.text@));
                    assert forall|a: int, b: int| 0 <= a < b < s_new.len() implies (
                    #[trigger] s_new[a]).id.text@ != (#[trigger] s_new[b]).id.text@ by {
                        if b == last {
                            assert(s_new[a] == s_old[a]);
                            if s_old[a].id.text@ == id.text@ {
                                assert(old(self).spec_has(id.text@));
                            }
                        } else {
                            assert(s_new[a] == s_old[a]);
                            assert(s_new[b] == s_old[b]);
                        }
                    }
                }
            },
        }
    }

    /// Drop the in-memory entry under `id` and hand back its on-disk
    /// directory, which the caller must delete (a deletion failure leaves the
    /// accepted inconsistency window: memory already dropped).
    pub fn remove_repository(&mut self, id: &RepoId) -> (r: String)
        requires
            old(self).wf(),
        ensures
            final(self).wf(),
            final(self).root() == old(self).root(),
            r@ == spec_repo_dir(old(self).root(), id.text@),
            !final(self).spec_has(id.text@),
            !old(self).spec_has(id.text@) ==> final(self).repos() == old(self).repos(),
            old(self).spec_has(id.text@) ==> exists|i: int|
                0 <= i < old(self).repos().len() && (#[trigger] old(self).repos()[i]).id.text@
                    == id.text@ && final(self).repos() == old(self).repos().remove(i),
    {
        match self.find_index(id) {
            Some(i) => {
                self.repositories.remove(i);
                proof {
                    assert forall|k: int|
                        0 <= k < self.repos().len() implies (#[trigger] self.repos()[k]).id.text@
                        != id.text@ by {
                        if k < i as int {
                            assert(self.repos()[k] == old(self).repos()[k]);
                        } else {
                            assert(self.repos()[k] == old(self).repos()[k + 1]);
                        }
                    }
                }
            },
            None => {},
        }
        self.installation.repo_path(id)
    }

    /// The refresh instructions for the repository under `id`, or
    /// Unknown-Repository when none is configured under it.
    pub fn refresh(&self, id: &RepoId) -> (r: Result<RefreshTarget, Error>)
        ensures
            self.spec_has(id.text@) ==> (r matches Ok(t) && exists|i: int|
                0 <= i < self.repos().len() && (#[trigger] self.repos()[i]).id.text@ == id.text@
                    && t.id == self.repos()[i].id && t.index_uri@
                    == self.repos()[i].repository.uri.text@ && t.db_path@
                    == self.repos()[i].db_path@ && t.index_path@ == spec_index_path(
                    self.root(),
                    id.text@,
                )),
            !self.spec_has(id.text@) ==> (r matches Err(Error::UnknownRepo(u)) && u.text@
                == id.text@),
    {
        match self.find_index(id) {
            Some(i) => Ok(self.refresh_target(i)),
            None => Err(Error::UnknownRepo(id.dup())),
        }
    }

    /// The refresh instructions for the configured entry at `i`.
    fn refresh_target(&self, i: usize) -> (t: RefreshTarget)
        requires
            i < self.repos().len(),
        ensures
            t.id == self.repos()[i as int].id,
            t.index_uri@ == self.repos()[i as int].repository.uri.text@,
            t.db_path@ == self.repos()[i as int].db_path@,
            t.index_path@ == spec_index_path(self.root(), self.repos()[i as int].id.text@),
    {
        let entry = &self.repositories[i];
        let mut index_path = self.installation.repo_path(&entry.id);
        index_path.append("/stone.index");
        RefreshTarget {
            id: entry.id.dup(),
            index_uri: entry.repository.uri.text.clone(),
            index_path,
            db_path: entry.db_path.clone(),
        }
    }

    /// Refresh instructions for every configured repository: the driver
    /// launches all of them at once (unbounded fan-out) and joins, surfacing
    /// the first failure only after every refresh has finished.
    pub fn refresh_all(&self) -> (r: Vec<RefreshTarget>)
        ensures
            r@.len() == self.repos().len(),
            forall|i: int|
                0 <= i < self.repos().len() ==> (#[trigger] r@[i]).id == self.repos()[i].id
                    && r@[i].index_uri@ == self.repos()[i].repository.uri.text@ && r@[i].db_path@
                    == self.repos()[i].db_path@ && r@[i].index_path@ == spec_index_path(
                    self.root(),
                    self.repos()[i].id.text@,
                ),
    {
        let n = self.repositories.len();
        let mut out: Vec<RefreshTarget> = Vec::new();
        let mut i: usize = 0;
        while i < n
            invariant
                i <= n,
                n == self.repos().len(),
                out@.len() == i,
                forall|k: int|
                    0 <= k < i as int ==> (#[trigger] out@[k]).id == self.repos()[k].id
                        && out@[k].index_uri@ == self.repos()[k].repository.uri.text@
                        && out@[k].db_path@ == self.repos()[k].db_path@ && out@[k].index_path@
                        == spec_index_path(self.root(), self.repos()[k].id.text@),
            decreases n - i,
        {
            let t = self.refresh_target(i);
            out.push(t);
            i = i + 1;
        }
        out
    }

    /// List all of the known repositories as (identifier, entry) pairs.
    pub fn list(&self) -> (r: Vec<(RepoId, Repository)>)
        ensures
            r@.len() == self.repos().len(),
            forall|i: int|
                0 <= i < self.repos().len() ==> (#[trigger] r@[i]).0 == self.repos()[i].id
                    && r@[i].1 == self.repos()[i].repository,
    {
        let n = self.repositories.len();
        let mut out: Vec<(RepoId, Repository)> = Vec::new();
        let mut i: usize = 0;
        while i < n
            invariant
                i <= n,
                n == self.repos().len(),
                out@.len() == i,
                forall|k: int|
                    0 <= k < i as int ==> (#[trigger] out@[k]).0 == self.repos()[k].id
                        && out@[k].1 == self.repos()[k].repository,
            decreases n - i,
        {
            let entry = &self.repositories[i];
            out.push((entry.id.dup(), entry.repository.dup()));
            i = i + 1;
        }
        out
    }

    /// The active repositories held by this manager.
    pub fn active(&self) -> (r: Vec<ActiveRepo>)
        ensures
            r@ == self.repos(),
    {
        let n = self.repositories.len();
        let mut out: Vec<ActiveRepo> = Vec::new();
        let mut i: usize = 0;
        while i < n
            invariant
                i <= n,
                n == self.repos().len(),
                out@ == self.repos().take(i as int),
            decreases n - i,
        {
            out.push(self.repositories[i].dup());
            i = i + 1;
            proof {
                assert(out@ =~= self.repos().take(i as int));
            }
        }
        proof {
            assert(self.repos().take(n as int) =~= self.repos());
        }
        out
    }
}

} // verus!
