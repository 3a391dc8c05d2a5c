//! The git synchronizer as a step machine: each state names the next git
//! subprocess (or filesystem probe) to run, and the transition on its outcome.
//! The driving loop performs the actions; every decision is made here.

use vstd::prelude::*;

verus! {

use vstd::string::StringExecFns;
use crate::upstream::Error;
use crate::upstream::Git;
use crate::upstream::Installed;

/// Where a synchronization stands. The cached branch (FetchRemote .. SubmodulesCached)
/// reuses an existing working tree; the fresh branch (ClearStale .. SubmodulesFresh)
/// clones anew, with a two-hop clone under the staging strategy.
#[derive(Clone, Copy, Debug, PartialEq, Eq, Structural)]
pub enum GitStep {
    /// Ask whether the final path already exists as a working tree.
    ProbeTree,
    /// Run a remote fetch inside the existing tree.
    FetchRemote,
    /// Ask whether the pinned ref resolves locally.
    ProbeRef,
    /// Hard-reset the existing tree to the pinned ref.
    ResetCached,
    /// Recursive, depth-limited, parallel submodule update (cached branch).
    SubmodulesCached,
    /// Discard stale clone, staging and final directories (best effort).
    ClearStale,
    /// Clone from the upstream URI (a bare mirror under staging).
    CloneUpstream,
    /// Second hop: clone from the staging mirror into the final path.
    CloneWorkTree,
    /// Hard-reset the fresh tree to the pinned ref.
    ResetFresh,
    /// Recursive, depth-limited, parallel submodule update (fresh branch).
    SubmodulesFresh,
    /// The tree at the final path is checked out at the pinned ref.
    Done,
    /// A git subprocess failed; the whole fetch is aborted.
    Failed,
}

/// What the driver must do next for a synchronization in progress.
pub enum GitAction {
    /// Report whether the directory exists.
    ProbePath { path: String },
    /// Run git with these arguments, in `cwd` when given; the outcome is
    /// whether it exited successfully.
    Run { args: Vec<String>, cwd: Option<String> },
    /// Remove these directories, ignoring failures; the outcome is ignored.
    Clear { paths: Vec<String> },
}

/// One git upstream being synchronized to its pinned ref.
pub struct GitSync {
    pub git: Git,
    pub final_path: String,
    pub staging_path: String,
    pub step: GitStep,
    /// Whether a hard reset to the pinned ref has succeeded.
    pub reset_done: bool,
    /// Whether the tree was reused (ref already resolvable locally).
    pub cached: bool,
}

impl GitSync {
    /// Done is only reached after a successful hard reset to the pinned ref.
    pub open spec fn wf(self) -> bool {
        &&& self.step == GitStep::SubmodulesCached ==> self.reset_done
        &&& self.step == GitStep::SubmodulesFresh ==> self.reset_done
        &&& self.step == GitStep::Done ==> self.reset_done
    }

    pub open spec fn terminal(self) -> bool {
        self.step == GitStep::Done || self.step == GitStep::Failed
    }

    /// What the driver runs for the current step.
    pub fn action(&self) -> (r: GitAction)
        requires
            !self.terminal(),
        ensures
            self.step == GitStep::ProbeTree ==> (r matches GitAction::ProbePath { path }
                && path@ == self.final_path@),
            self.step == GitStep::FetchRemote ==> (r matches GitAction::Run { args, cwd }
                && args@.len() == 1 && args@[0]@ == "fetch"@ && (cwd matches Some(d) && d@
                == self.final_path@)),
            self.step == GitStep::ProbeRef ==> (r matches GitAction::Run { args, cwd }
                && args@.len() == 3 && args@[0]@ == "cat-file"@ && args@[1]@ == "-e"@
                && args@[2]@ == self.git.ref_id@ && (cwd matches Some(d) && d@
                == self.final_path@)),
            self.step == GitStep::ResetCached || self.step == GitStep::ResetFresh ==> (r
                matches GitAction::Run { args, cwd } && args@.len() == 3 && args@[0]@
                == "reset"@ && args@[1]@ == "--hard"@ && args@[2]@ == self.git.ref_id@ && (cwd
                matches Some(d) && d@ == self.final_path@)),
            self.step == GitStep::SubmodulesCached || self.step == GitStep::SubmodulesFresh ==> (r
                matches GitAction::Run { args, cwd } && args@.len() == 8 && args@[0]@
                == "submodule"@ && args@[1]@ == "update"@ && args@[2]@ == "--init"@ && args@[3]@
                == "--recursive"@ && args@[4]@ == "--depth"@ && args@[5]@ == "1"@ && args@[6]@
                == "--jobs"@ && args@[7]@ == "4"@ && (cwd matches Some(d) && d@
                == self.final_path@)),
            self.step == GitStep::ClearStale && self.git.staging ==> (r matches GitAction::Clear {
                paths,
            } && paths@.len() == 2 && paths@[0]@ == self.staging_path@ && paths@[1]@
                == self.final_path@),
            self.step == GitStep::ClearStale && !self.git.staging ==> (r
                matches GitAction::Clear { paths } && paths@.len() == 1 && paths@[0]@
                == self.final_path@),
            self.step == GitStep::CloneUpstream && self.git.staging ==> (r
                matches GitAction::Run { args, cwd } && args@.len() == 5 && args@[0]@
                == "clone"@ && args@[1]@ == "--mirror"@ && args@[2]@ == "--"@ && args@[3]@
                == self.git.uri.text@ && args@[4]@ == self.staging_path@ && cwd is None),
            self.step == GitStep::CloneUpstream && !self.git.staging ==> (r
                matches GitAction::Run { args, cwd } && args@.len() == 4 && args@[0]@
                == "clone"@ && args@[1]@ == "--"@ && args@[2]@ == self.git.uri.text@
                && args@[3]@ == self.final_path@ && cwd is None),
            self.step == GitStep::CloneWorkTree ==> (r matches GitAction::Run { args, cwd }
                && args@.len() == 4 && args@[0]@ == "clone"@ && args@[1]@ == "--"@ && args@[2]@
                == self.staging_path@ && args@[3]@ == self.final_path@ && cwd is None),
    {
        match self.step {
            GitStep::ProbeTree => GitAction::ProbePath { path: self.final_path.clone() },
            GitStep::FetchRemote => {
                let mut args: Vec<String> = Vec::new();
                args.push(String::from_str("fetch"));
                GitAction::Run { args, cwd: Some(self.final_path.clone()) }
            },
            GitStep::ProbeRef => {
                let mut args: Vec<String> = Vec::new();
                args.push(String::from_str("cat-file"));
                args.push(String::from_str("-e"));
                args.push(self.git.ref_id.clone());
                GitAction::Run { args, cwd: Some(self.final_path.clone()) }
            },
            GitStep::ResetCached | GitStep::ResetFresh => {
                let mut args: Vec<String> = Vec::new();
                args.push(String::from_str("reset"));
                args.push(String::from_str("--hard"));
                args.push(self.git.ref_id.clone());
                GitAction::Run { args, cwd: Some(self.final_path.clone()) }
            },
            GitStep::SubmodulesCached | GitStep::SubmodulesFresh => {
                let mut args: Vec<String> = Vec::new();
                args.push(String::from_str("submodule"));
                args.push(String::from_str("update"));
                args.push(String::from_str("--init"));
                args.push(String::from_str("--recursive"));
                args.push(String::from_str("--depth"));
                args.push(String::from_str("1"));
                args.push(String::from_str("--jobs"));
                args.push(String::from_str("4"));
                GitAction::Run { args, cwd: Some(self.final_path.clone()) }
            },
            GitStep::ClearStale => {
                let mut paths: Vec<String> = Vec::new();
                if self.git.staging {
                    paths.push(self.staging_path.clone());
                }
                paths.push(self.final_path.clone());
                GitAction::Clear { paths }
            },
            GitStep::CloneUpstream => {
                let mut args: Vec<String> = Vec::new();
                args.push(String::from_str("clone"));
                if self.git.staging {
                    args.push(String::from_str("--mirror"));
                }
                args.push(String::from_str("--"));
                args.push(self.git.uri.text.clone());
                if self.git.staging {
                    args.push(self.staging_path.clone());
                } else {
                    args.push(self.final_path.clone());
                }
                GitAction::Run { args, cwd: None }
            },
            GitStep::CloneWorkTree => {
                let mut args: Vec<String> = Vec::new();
                args.push(String::from_str("clone"));
                args.push(String::from_str("--"));
                args.push(self.staging_path.clone());
                args.push(self.final_path.clone());
                GitAction::Run { args, cwd: None }
            },
            GitStep::Done | GitStep::Failed => {
                // unreachable under the precondition
                GitAction::Clear { paths: Vec::new() }
            },
        }
    }

    /// Consume the outcome of the current action and move to the next step.
    /// Probe outcomes choose between the cached and fresh branches; a failed
    /// git command aborts, except the ref probe (a miss means clone afresh)
    /// and the best-effort clear.
    pub fn advance(&mut self, ok: bool)
        requires
            !old(self).terminal(),
            old(self).wf(),
        ensures
            final(self).wf(),
            final(self).git == old(self).git,
            final(self).final_path == old(self).final_path,
            final(self).staging_path == old(self).staging_path,
            old(self).step == GitStep::ProbeTree ==> final(self).step == (if ok {
                GitStep::FetchRemote
            } else {
                GitStep::ClearStale
            }) && final(self).cached == old(self).cached && final(self).reset_done == old(
                self,
            ).reset_done,
            old(self).step == GitStep::FetchRemote ==> final(self).step == (if ok {
                GitStep::ProbeRef
            } else {
                GitStep::Failed
            }) && final(self).cached == old(self).cached && final(self).reset_done == old(
                self,
            ).reset_done,
            old(self).step == GitStep::ProbeRef ==> final(self).step == (if ok {
                GitStep::ResetCached
            } else {
                GitStep::ClearStale
            }) && final(self).cached == ok && final(self).reset_done == old(self).reset_done,
            old(self).step == GitStep::ResetCached ==> final(self).step == (if ok {
                GitStep::SubmodulesCached
            } else {
                GitStep::Failed
            }) && final(self).cached == old(self).cached && final(self).reset_done == (old(
                self,
            ).reset_done || ok),
            old(self).step == GitStep::SubmodulesCached ==> final(self).step == (if ok {
                GitStep::Done
            } else {
                GitStep::Failed
            }) && final(self).cached == old(self).cached && final(self).reset_done == old(
                self,
            ).reset_done,
            old(self).step == GitStep::ClearStale ==> final(self).step == GitStep::CloneUpstream
                && final(self).cached == old(self).cached && final(self).reset_done == old(
                self,
            ).reset_done,
            old(self).step == GitStep::CloneUpstream ==> final(self).step == (if ok {
                if old(self).git.staging {
                    GitStep::CloneWorkTree
                } else {
                    GitStep::ResetFresh
                }
            } else {
                GitStep::Failed
            }) && final(self).cached == old(self).cached && final(self).reset_done == old(
                self,
            ).reset_done,
            old(self).step == GitStep::CloneWorkTree ==> final(self).step == (if ok {
                GitStep::ResetFresh
            } else {
                GitStep::Failed
            }) && final(self).cached == old(self).cached && final(self).reset_done == old(
                self,
            ).reset_done,
            old(self).step == GitStep::ResetFresh ==> final(self).step == (if ok {
                GitStep::SubmodulesFresh
            } else {
                GitStep::Failed
            }) && final(self).cached == old(self).cached && final(self).reset_done == (old(
                self,
            ).reset_done || ok),
            old(self).step == GitStep::SubmodulesFresh ==> final(self).step == (if ok {
                GitStep::Done
            } else {
                GitStep::Failed
            }) && final(self).cached == old(self).cached && final(self).reset_done == old(
                self,
            ).reset_done,
    {
        match self.step {
            GitStep::ProbeTree => {
                self.step = if ok {
                    GitStep::FetchRemote
                } else {
                    GitStep::ClearStale
                };
            },
            GitStep::FetchRemote => {
                self.step = if ok {
                    GitStep::ProbeRef
                } else {
                    GitStep::Failed
                };
            },
            GitStep::ProbeRef => {
                self.cached = ok;
                self.step = if ok {
                    GitStep::ResetCached
                } else {
                    GitStep::ClearStale
                };
            },
            GitStep::ResetCached => {
                if ok {
                    self.reset_done = true;
                    self.step = GitStep::SubmodulesCached;
                } else {
                    self.step = GitStep::Failed;
                }
            },
            GitStep::SubmodulesCached => {
                self.step = if ok {
                    GitStep::Done
                } else {
                    GitStep::Failed
                };
            },
            GitStep::ClearStale => {
                self.step = GitStep::CloneUpstream;
            },
            GitStep::CloneUpstream => {
                if ok {
                    self.step = if self.git.staging {
                        GitStep::CloneWorkTree
                    } else {
                        GitStep::ResetFresh
                    };
                } else {
                    self.step = GitStep::Failed;
                }
            },
            GitStep::CloneWorkTree => {
                self.step = if ok {
                    GitStep::ResetFresh
                } else {
                    GitStep::Failed
                };
            },
            GitStep::ResetFresh => {
                if ok {
                    self.reset_done = true;
                    self.step = GitStep::SubmodulesFresh;
                } else {
                    self.step = GitStep::Failed;
                }
            },
            GitStep::SubmodulesFresh => {
                self.step = if ok {
                    GitStep::Done
                } else {
                    GitStep::Failed
                };
            },
            GitStep::Done | GitStep::Failed => {
                // unreachable under the precondition
            },
        }
    }

    /// The installed artifact of a finished synchronization.
    pub fn finish(&self) -> (r: Installed)
        requires
            self.step == GitStep::Done,
        ensures
            r matches Installed::Git { name, path, was_cached } && name@ == self.git.spec_name()
                && path@ == self.final_path@ && was_cached == self.cached,
    {
        Installed::Git {
            name: self.git.name(),
            path: self.final_path.clone(),
            was_cached: self.cached,
        }
    }

    /// The error of an aborted synchronization, carrying the source URI.
    pub fn failure(&self) -> (r: Error)
        requires
            self.step == GitStep::Failed,
        ensures
            r matches Error::GitFailed(u) && u.text@ == self.git.uri.text@ && u.path@
                == self.git.uri.path@,
    {
        Error::GitFailed(self.git.uri.dup())
    }
}

impl Git {
    /// Begin synchronizing this upstream under `cache_root`.
    pub fn begin_sync(&self, cache_root: &str) -> (r: GitSync)
        ensures
            r.wf(),
            r.step == GitStep::ProbeTree,
            !r.reset_done,
            !r.cached,
            r.git == *self,
            r.final_path@ == crate::upstream::spec_git_final_path(cache_root@, self.uri.path@),
            r.staging_path@ == crate::upstream::spec_git_staging_path(
                cache_root@,
                self.uri.path@,
            ),
    {
        GitSync {
            git: Git {
                uri: self.uri.dup(),
                ref_id: self.ref_id.clone(),
                clone_dir: match &self.clone_dir {
                    Some(d) => Some(d.clone()),
                    None => None,
                },
                staging: self.staging,
            },
            final_path: self.final_path(cache_root),
            staging_path: self.staging_path(cache_root),
            step: GitStep::ProbeTree,
            reset_done: false,
            cached: false,
        }
    }
}

/// The ref pin: a synchronization that reports Done has run a successful
/// `reset --hard` to the pinned ref, whatever the tree pointed at before —
/// on the cached branch and on the fresh branch alike.
pub proof fn lemma_git_ref_pin(g: GitSync)
    requires
        g.wf(),
        g.step == GitStep::Done,
    ensures
        g.reset_done,
{
}

} // verus!
