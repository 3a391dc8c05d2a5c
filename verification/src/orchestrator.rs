//! Bounded unordered admission over a recipe's upstream list: tasks are drawn
//! in declaration order, at most a configured number run at once, and the
//! first failure stops all further admission while in-flight tasks run on.

use vstd::prelude::*;

verus! {

/// The system-wide default bound on concurrent network operations.
pub const MAX_NETWORK_CONCURRENCY: usize = 16;

/// Aggregates the failures of a concurrent run: the first one encountered is
/// surfaced, every later one is discarded.
pub struct FirstFailure<E> {
    first: Option<E>,
}

impl<E> FirstFailure<E> {
    /// The failure the run will surface, when one was recorded.
    pub closed spec fn spec_first(self) -> Option<E> {
        self.first
    }

    pub fn new() -> (r: FirstFailure<E>)
        ensures
            r.spec_first() is None,
    {
        FirstFailure { first: None }
    }

    /// Record one failure: kept when it is the first, discarded otherwise.
    pub fn record(&mut self, failure: E)
        ensures
            old(self).spec_first() is None ==> final(self).spec_first() == Some(failure),
            old(self).spec_first() is Some ==> final(self).spec_first() == old(
                self,
            ).spec_first(),
    {
        if self.first.is_none() {
            self.first = Some(failure);
        }
    }

    pub fn has_failure(&self) -> (r: bool)
        ensures
            r == (self.spec_first() is Some),
    {
        self.first.is_some()
    }

    /// The aggregated outcome: the first failure, or success when none came.
    pub fn take(self) -> (r: Option<E>)
        ensures
            r == self.spec_first(),
    {
        self.first
    }
}

/// The admission state of one concurrent fetch+share run.
pub struct Orchestrator {
    total: usize,
    next: usize,
    in_flight: usize,
    completed: usize,
    failed: bool,
    max: usize,
}

impl Orchestrator {
    /// The admission invariant: the bound is positive, in-flight tasks never
    /// exceed it, admission never passes the declared total, and every
    /// admitted task is either in flight or completed.
    pub closed spec fn wf(self) -> bool {
        &&& self.max >= 1
        &&& self.in_flight <= self.max
        &&& self.next <= self.total
        &&& self.next == self.completed + self.in_flight
    }

    /// How many tasks have been admitted so far (in declaration order).
    pub closed spec fn spec_admitted(self) -> nat {
        self.next as nat
    }

    /// How many admitted tasks are currently running.
    pub closed spec fn spec_in_flight(self) -> nat {
        self.in_flight as nat
    }

    /// How many admitted tasks have finished, either way.
    pub closed spec fn spec_completed(self) -> nat {
        self.completed as nat
    }

    /// Whether some finished task has failed.
    pub closed spec fn spec_failed(self) -> bool {
        self.failed
    }

    pub closed spec fn spec_total(self) -> nat {
        self.total as nat
    }

    pub closed spec fn spec_max(self) -> nat {
        self.max as nat
    }

    /// Start a run over `total` declared upstreams with concurrency bound
    /// `max`.
    pub fn new(total: usize, max: usize) -> (r: Orchestrator)
        requires
            max >= 1,
        ensures
            r.wf(),
            r.spec_total() == total,
            r.spec_max() == max,
            r.spec_admitted() == 0,
            r.spec_in_flight() == 0,
            r.spec_completed() == 0,
            !r.spec_failed(),
    {
        Orchestrator { total, next: 0, in_flight: 0, completed: 0, failed: false, max }
    }

    /// Admit the next task when one may start: none has failed, the list is
    /// not exhausted, and fewer than `max` are in flight. After a failure
    /// nothing further is ever admitted.
    pub fn start_next(&mut self) -> (r: Option<usize>)
        requires
            old(self).wf(),
        ensures
            final(self).wf(),
            final(self).spec_total() == old(self).spec_total(),
            final(self).spec_max() == old(self).spec_max(),
            final(self).spec_failed() == old(self).spec_failed(),
            final(self).spec_completed() == old(self).spec_completed(),
            final(self).spec_in_flight() <= final(self).spec_max(),
            r matches Some(i) ==> i == old(self).spec_admitted()
                && !old(self).spec_failed()
                && old(self).spec_admitted() < old(self).spec_total()
                && old(self).spec_in_flight() < old(self).spec_max()
                && final(self).spec_admitted() == old(self).spec_admitted() + 1
                && final(self).spec_in_flight() == old(self).spec_in_flight() + 1,
            r is None ==> final(self).spec_admitted() == old(self).spec_admitted()
                && final(self).spec_in_flight() == old(self).spec_in_flight()
                && (old(self).spec_failed()
                    || old(self).spec_admitted() >= old(self).spec_total()
                    || old(self).spec_in_flight() >= old(self).spec_max()),
            old(self).spec_failed() ==> r is None,
    {
        if !self.failed && self.next < self.total && self.in_flight < self.max {
            let i = self.next;
            self.next = self.next + 1;
            self.in_flight = self.in_flight + 1;
            Some(i)
        } else {
            None
        }
    }

    /// Record that one in-flight task finished; a failure makes the whole run
    /// failed and stops further admission, but never interrupts the rest.
    pub fn task_done(&mut self, ok: bool)
        requires
            old(self).wf(),
            old(self).spec_in_flight() > 0,
        ensures
            final(self).wf(),
            final(self).spec_total() == old(self).spec_total(),
            final(self).spec_max() == old(self).spec_max(),
            final(self).spec_admitted() == old(self).spec_admitted(),
            final(self).spec_in_flight() == old(self).spec_in_flight() - 1,
            final(self).spec_completed() == old(self).spec_completed() + 1,
            final(self).spec_failed() == (old(self).spec_failed() || !ok),
    {
        self.in_flight = self.in_flight - 1;
        self.completed = self.completed + 1;
        if !ok {
            self.failed = true;
        }
    }

    /// Whether the run is over: nothing in flight, and either a failure was
    /// recorded or every declared upstream was admitted and finished.
    pub fn finished(&self) -> (r: bool)
        ensures
            r == (self.spec_in_flight() == 0 && (self.spec_failed() || self.spec_admitted()
                == self.spec_total())),
    {
        self.in_flight == 0 && (self.failed || self.next == self.total)
    }

    pub fn has_failed(&self) -> (r: bool)
        ensures
            r == self.spec_failed(),
    {
        self.failed
    }

    /// The concurrency bound: at no point are more tasks in flight than the
    /// configured maximum.
    pub proof fn lemma_concurrency_bound(&self)
        requires
            self.wf(),
        ensures
            self.spec_in_flight() <= self.spec_max(),
    {
    }

    /// Fail-fast intake: however the run continues after a failure, the set of
    /// admitted tasks is frozen — at most the bound many were still in flight
    /// and may finish, and admission yields nothing new.
    pub proof fn lemma_fail_fast(&self)
        requires
            self.wf(),
        ensures
            self.spec_failed() ==> self.spec_admitted() - self.spec_completed()
                <= self.spec_max(),
    {
    }
}

} // verus!
