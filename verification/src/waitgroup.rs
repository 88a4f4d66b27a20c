//! The counter-based barrier at the heart of the pool.
//!
//! A `WaitGroup` counts outstanding submissions. Every `submit` is matched
//! by exactly one `complete` (normal retirement) or `poison` (retirement
//! under fault); a joiner proceeds only once the count has drained to
//! zero, and then observes the sticky fault flag. Deferring the fault to
//! the drained join is what lets a scope's fault wait for every sibling
//! task before it surfaces.

use crate::Fault;
use vstd::prelude::*;

verus! {

/// A synchronization primitive for awaiting a set of actions.
///
/// `pending` is the number of submissions not yet retired; `poisoned` is
/// sticky — once a retirement happened under fault it never clears. The
/// ghost counters record the cumulative history of the three operations,
/// so conservation — `pending == submits - (completes + poisons)` — can be
/// stated and proved at every observable point.
///
/// The host runtime shares one `WaitGroup` between threads under its own
/// mutual exclusion and wakes joiners on its own condition signal; each
/// operation below is the state change made while that exclusion is held.
pub struct WaitGroup {
    pending: usize,
    poisoned: bool,
    submits: Ghost<nat>,
    completes: Ghost<nat>,
    poisons: Ghost<nat>,
}

impl WaitGroup {
    /// The number of outstanding submissions.
    pub closed spec fn pending(self) -> nat {
        self.pending as nat
    }

    /// Whether some retirement happened under fault. Sticky.
    pub closed spec fn poisoned(self) -> bool {
        self.poisoned
    }

    /// Cumulative number of `submit` calls.
    pub closed spec fn submits(self) -> nat {
        self.submits@
    }

    /// Cumulative number of `complete` calls.
    pub closed spec fn completes(self) -> nat {
        self.completes@
    }

    /// Cumulative number of `poison` calls.
    pub closed spec fn poisons(self) -> nat {
        self.poisons@
    }

    /// Cumulative number of retirements, normal or faulting.
    pub open spec fn retired(self) -> nat {
        self.completes() + self.poisons()
    }

    /// Conservation: no retirement without a submission, `pending` is
    /// exactly the unretired count, and the fault flag is set exactly when
    /// some retirement poisoned the group.
    pub open spec fn wf(self) -> bool {
        &&& self.retired() <= self.submits()
        &&& self.pending() == self.submits() - self.retired()
        &&& (self.poisoned() <==> self.poisons() > 0)
    }

    /// Create a new empty `WaitGroup`.
    pub fn new() -> (wg: WaitGroup)
        ensures
            wg.wf(),
            wg.pending() == 0,
            !wg.poisoned(),
            wg.submits() == 0,
            wg.completes() == 0,
            wg.poisons() == 0,
    {
        WaitGroup {
            pending: 0,
            poisoned: false,
            submits: Ghost(0),
            completes: Ghost(0),
            poisons: Ghost(0),
        }
    }

    /// How many submitted actions are waiting for retirement.
    pub fn waiting(&self) -> (n: usize)
        ensures
            n == self.pending(),
    {
        self.pending
    }

    /// Submit to this `WaitGroup`, causing a drained join to wait for one
    /// additional `complete` or `poison`.
    pub fn submit(&mut self)
        requires
            old(self).wf(),
            old(self).pending() < usize::MAX,
        ensures
            final(self).wf(),
            final(self).pending() == old(self).pending() + 1,
            final(self).poisoned() == old(self).poisoned(),
            final(self).submits() == old(self).submits() + 1,
            final(self).completes() == old(self).completes(),
            final(self).poisons() == old(self).poisons(),
    {
        self.pending = self.pending + 1;
        self.submits = Ghost(self.submits@ + 1);
    }

    /// Retire a previous `submit` normally.
    pub fn complete(&mut self)
        requires
            old(self).wf(),
            old(self).pending() > 0,
        ensures
            final(self).wf(),
            final(self).pending() == old(self).pending() - 1,
            final(self).poisoned() == old(self).poisoned(),
            final(self).submits() == old(self).submits(),
            final(self).completes() == old(self).completes() + 1,
            final(self).poisons() == old(self).poisons(),
    {
        self.pending = self.pending - 1;
        self.completes = Ghost(self.completes@ + 1);
    }

    /// Retire a previous `submit` under fault, marking the group so that
    /// its drained join surfaces a [`Fault`] instead of returning normally.
    ///
    /// Poisoning consumes the submission's credit: a faulting task must not
    /// leave the group permanently non-zero, and must not also `complete`.
    pub fn poison(&mut self)
        requires
            old(self).wf(),
            old(self).pending() > 0,
        ensures
            final(self).wf(),
            final(self).pending() == old(self).pending() - 1,
            final(self).poisoned(),
            final(self).submits() == old(self).submits(),
            final(self).completes() == old(self).completes(),
            final(self).poisons() == old(self).poisons() + 1,
    {
        self.pending = self.pending - 1;
        self.poisoned = true;
        self.poisons = Ghost(self.poisons@ + 1);
    }

    /// Observe the group once it has drained: a joiner blocks until
    /// `pending` reaches zero, then takes this step. If any retirement
    /// poisoned the group the joiner is owed a [`Fault`]; otherwise it
    /// returns normally.
    pub fn join(&self) -> (r: Result<(), Fault>)
        requires
            self.pending() == 0,
        ensures
            r is Err <==> self.poisoned(),
            r is Ok <==> !self.poisoned(),
    {
        if self.poisoned {
            Err(Fault)
        } else {
            Ok(())
        }
    }
}

/// Conservation law: at every observable point, the outstanding count plus
/// the cumulative retirements equal the cumulative submissions —
/// `pending == submits - (completes + poisons)`.
pub proof fn lemma_conservation(wg: WaitGroup)
    requires
        wg.wf(),
    ensures
        wg.pending() + wg.completes() + wg.poisons() == wg.submits(),
{
}

/// Drained means retired: once a group's outstanding count has reached
/// zero, every submission ever made has been matched by exactly one
/// retirement — run to completion or poisoned under fault. Nothing
/// submitted can still be outstanding when a joiner proceeds.
pub proof fn lemma_drained_all_retired(wg: WaitGroup)
    requires
        wg.wf(),
        wg.pending() == 0,
    ensures
        wg.retired() == wg.submits(),
{
}

} // verus!
