//! Decisions of the worker process supervisor: fail-fast startup and the
//! gate on returning from shutdown.
//!
//! The supervisor binds one UDP socket per configured media port, spawns one
//! worker per socket, and, after the shutdown broadcast, blocks until every
//! worker has exited.  The embedding program does the binding, spawning and
//! joining; this module owns the two rules involved: serving may begin only
//! when every bind succeeded, and the supervisor may return only when every
//! spawned worker has exited.

use vstd::prelude::*;

verus! {

/// Whether every socket bind succeeded: only then may any worker start
/// processing — a single failure aborts the whole startup, leaving no
/// partially started cluster.
pub open spec fn spec_all_bound(bind_ok: Seq<bool>) -> bool {
    forall|i: int| 0 <= i < bind_ok.len() ==> bind_ok[i]
}

/// Decides whether startup may proceed to serving, from the outcome of each
/// port's socket bind.
pub fn startup_may_serve(bind_ok: &Vec<bool>) -> (serve: bool)
    ensures
        serve == spec_all_bound(bind_ok@),
{
    let mut i: usize = 0;
    while i < bind_ok.len()
        invariant
            i <= bind_ok@.len(),
            forall|k: int| 0 <= k < i ==> bind_ok@[k],
        decreases bind_ok@.len() - i,
    {
        if !bind_ok[i] {
            return false;
        }
        i = i + 1;
    }
    true
}

/// The supervisor's account of its workers: how many it spawned and how many
/// it has seen exit.
pub struct WorkerLedger {
    spawned: u64,
    exited: u64,
}

impl WorkerLedger {
    /// How many workers were spawned.
    pub closed spec fn spec_spawned(&self) -> u64 {
        self.spawned
    }

    /// How many workers have exited.
    pub closed spec fn spec_exited(&self) -> u64 {
        self.exited
    }

    /// No worker exits that was never spawned.
    pub open spec fn wf(&self) -> bool {
        self.spec_exited() <= self.spec_spawned()
    }

    /// An empty ledger: nothing spawned, nothing exited.
    pub fn new() -> (ledger: WorkerLedger)
        ensures
            ledger.wf(),
            ledger.spec_spawned() == 0,
            ledger.spec_exited() == 0,
    {
        WorkerLedger { spawned: 0, exited: 0 }
    }

    /// Records one spawned worker.
    pub fn record_spawn(&mut self)
        requires
            old(self).wf(),
            old(self).spec_spawned() < u64::MAX,
        ensures
            final(self).wf(),
            final(self).spec_spawned() == old(self).spec_spawned() + 1,
            final(self).spec_exited() == old(self).spec_exited(),
    {
        self.spawned = self.spawned + 1;
    }

    /// Records one worker observed to have exited.
    pub fn record_exit(&mut self)
        requires
            old(self).wf(),
            old(self).spec_exited() < old(self).spec_spawned(),
        ensures
            final(self).wf(),
            final(self).spec_spawned() == old(self).spec_spawned(),
            final(self).spec_exited() == old(self).spec_exited() + 1,
    {
        self.exited = self.exited + 1;
    }

    /// Whether the supervisor may return: only once every spawned worker has
    /// exited, so no socket stays bound and no session is torn down
    /// silently.
    pub fn may_return(&self) -> (done: bool)
        requires
            self.wf(),
        ensures
            done <==> self.spec_exited() == self.spec_spawned(),
    {
        self.exited == self.spawned
    }
}

} // verus!
