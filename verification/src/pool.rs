//! The pool and scope protocol.
//!
//! A pool owns the shared message queue and a pool-wide wait group whose
//! outstanding count is the number of live workers. A scope owns a wait
//! group whose outstanding count is the number of its tasks not yet
//! retired. Worker threads, panic unwinding and the closures themselves
//! belong to the host runtime; every bookkeeping step those threads take —
//! registration, dispatch, orderly quit, fault repair, and the exit
//! protocol of a scope — is a transition below, with its effect on both
//! wait groups and on the queue pinned by its contract.

use crate::queue::{MessageQueue, PoolMessage};
use crate::waitgroup::WaitGroup;
use crate::Fault;
use vstd::prelude::*;

verus! {

/// The shared state of a pool: the control queue and the pool-wide wait
/// group counting live workers.
///
/// A worker registers with the wait group before its thread starts and
/// retires when it exits, so the outstanding count equals the number of
/// live-or-shutting-down workers at every point.
pub struct PoolCore {
    queue: MessageQueue,
    wait: WaitGroup,
}

impl PoolCore {
    /// The queued control messages, oldest first.
    pub closed spec fn queue(self) -> Seq<PoolMessage> {
        self.queue@
    }

    /// The pool-wide wait group counting live workers.
    pub closed spec fn wait(self) -> WaitGroup {
        self.wait
    }

    /// The pool-wide wait group obeys conservation.
    pub open spec fn wf(self) -> bool {
        self.wait().wf()
    }

    /// Create an empty pool, with no workers and an empty queue.
    ///
    /// No job runs until workers are added via `expand`.
    pub fn empty() -> (p: PoolCore)
        ensures
            p.wf(),
            p.queue() == Seq::<PoolMessage>::empty(),
            p.wait().pending() == 0,
            !p.wait().poisoned(),
            p.wait().submits() == 0,
            p.wait().completes() == 0,
            p.wait().poisons() == 0,
    {
        PoolCore { queue: MessageQueue::new(), wait: WaitGroup::new() }
    }

    /// Create a pool with `size` workers registered.
    ///
    /// If `size` is zero no worker is registered and the pool is still
    /// usable: jobs queue up until `expand` adds a worker.
    pub fn new(size: usize) -> (p: PoolCore)
        ensures
            p.wf(),
            p.queue() == Seq::<PoolMessage>::empty(),
            p.wait().pending() == size,
            !p.wait().poisoned(),
            p.wait().submits() == size,
            p.wait().completes() == 0,
            p.wait().poisons() == 0,
    {
        let mut p = PoolCore::empty();
        let mut started: usize = 0;
        while started < size
            invariant
                p.wf(),
                p.queue() == Seq::<PoolMessage>::empty(),
                p.wait().pending() == started,
                !p.wait().poisoned(),
                p.wait().submits() == started,
                p.wait().completes() == 0,
                p.wait().poisons() == 0,
                started <= size,
            decreases size - started,
        {
            p.expand();
            started = started + 1;
        }
        p
    }

    /// How many workers are currently live or shutting down.
    pub fn workers(&self) -> (n: usize)
        ensures
            n == self.wait().pending(),
    {
        self.wait.waiting()
    }

    /// Register one additional worker with the pool-wide wait group.
    ///
    /// The registration precedes the host's thread spawn, so the worker
    /// count never under-counts a worker that is about to start.
    pub fn expand(&mut self)
        requires
            old(self).wf(),
            old(self).wait().pending() < usize::MAX,
        ensures
            final(self).wf(),
            final(self).queue() == old(self).queue(),
            final(self).wait().pending() == old(self).wait().pending() + 1,
            final(self).wait().poisoned() == old(self).wait().poisoned(),
            final(self).wait().submits() == old(self).wait().submits() + 1,
            final(self).wait().completes() == old(self).wait().completes(),
            final(self).wait().poisons() == old(self).wait().poisons(),
    {
        self.wait.submit();
    }

    /// Begin shutdown: push a single `Quit`.
    ///
    /// The worker that pops it re-pushes it ([`PoolCore::worker_quit`]),
    /// so the signal cascades to every worker. The caller then blocks on
    /// the pool-wide wait group and takes [`PoolCore::finish_shutdown`]
    /// once it has drained. Requesting shutdown concurrently with an open
    /// scope is the caller's risk: workers may exit while the scope still
    /// has tasks queued.
    pub fn begin_shutdown(&mut self)
        requires
            old(self).wf(),
        ensures
            final(self).wf(),
            final(self).queue() == old(self).queue().push(PoolMessage::Quit),
            final(self).wait() == old(self).wait(),
    {
        self.queue.push(PoolMessage::Quit);
    }

    /// Observe the end of shutdown, once every worker has retired: a
    /// [`Fault`] if some worker ever retired by fault, a normal return
    /// otherwise. On a pool with no workers the wait group is already
    /// drained, so this step is taken immediately.
    pub fn finish_shutdown(&self) -> (r: Result<(), Fault>)
        requires
            self.wait().pending() == 0,
        ensures
            r is Err <==> self.wait().poisoned(),
            r is Ok <==> !self.wait().poisoned(),
    {
        self.wait.join()
    }

    /// Take the oldest queued message, as a worker does; `None` where the
    /// real channel would block until a producer pushes.
    pub fn next_message(&mut self) -> (r: Option<PoolMessage>)
        requires
            old(self).wf(),
        ensures
            final(self).wf(),
            final(self).wait() == old(self).wait(),
            old(self).queue().len() == 0 ==> r is None && final(self).queue() == old(self).queue(),
            old(self).queue().len() > 0 ==> r == Some(old(self).queue()[0])
                && final(self).queue() == old(self).queue().subrange(
                1,
                old(self).queue().len() as int,
            ),
    {
        self.queue.pop()
    }

    /// A worker popped `Quit`: it re-pushes the message so its peers see
    /// it too, cancels its thread sentinel — retiring normally from the
    /// pool-wide wait group — and exits. This is the only transition that
    /// lowers the worker count.
    pub fn worker_quit(&mut self)
        requires
            old(self).wf(),
            old(self).wait().pending() > 0,
        ensures
            final(self).wf(),
            final(self).queue() == old(self).queue().push(PoolMessage::Quit),
            final(self).wait().pending() == old(self).wait().pending() - 1,
            final(self).wait().poisoned() == old(self).wait().poisoned(),
            final(self).wait().submits() == old(self).wait().submits(),
            final(self).wait().completes() == old(self).wait().completes() + 1,
            final(self).wait().poisons() == old(self).wait().poisons(),
    {
        self.queue.push(PoolMessage::Quit);
        self.wait.complete();
    }

    /// A worker ran a task to completion: its task sentinel's cancel path
    /// retires the task normally from the scope's wait group. The pool is
    /// untouched — a normal task execution neither adds nor removes a
    /// worker.
    pub fn worker_task_done(&self, scope: &mut ScopeCore)
        requires
            old(scope).wf(),
            old(scope).wait().pending() > 0,
        ensures
            final(scope).wf(),
            final(scope).wait().pending() == old(scope).wait().pending() - 1,
            final(scope).wait().poisoned() == old(scope).wait().poisoned(),
            final(scope).wait().submits() == old(scope).wait().submits(),
            final(scope).wait().completes() == old(scope).wait().completes() + 1,
            final(scope).wait().poisons() == old(scope).wait().poisons(),
    {
        scope.wait.complete();
    }

    /// A task faulted under a worker. The task sentinel poisons the
    /// scope's wait group; the thread sentinel then registers a
    /// replacement worker *before* retiring the dying one by poison, so
    /// the pool-wide outstanding count never dips — a shutdown joiner can
    /// never observe a false zero between a dying worker and its
    /// replacement. Worker preservation: the count leaves this transition
    /// exactly where it entered.
    pub fn worker_task_fault(&mut self, scope: &mut ScopeCore)
        requires
            old(self).wf(),
            old(self).wait().pending() > 0,
            old(self).wait().pending() < usize::MAX,
            old(scope).wf(),
            old(scope).wait().pending() > 0,
        ensures
            final(self).wf(),
            final(self).queue() == old(self).queue(),
            final(self).wait().pending() == old(self).wait().pending(),
            final(self).wait().poisoned(),
            final(self).wait().submits() == old(self).wait().submits() + 1,
            final(self).wait().completes() == old(self).wait().completes(),
            final(self).wait().poisons() == old(self).wait().poisons() + 1,
            final(scope).wf(),
            final(scope).wait().pending() == old(scope).wait().pending() - 1,
            final(scope).wait().poisoned(),
            final(scope).wait().submits() == old(scope).wait().submits(),
            final(scope).wait().completes() == old(scope).wait().completes(),
            final(scope).wait().poisons() == old(scope).wait().poisons() + 1,
    {
        scope.wait.poison();
        self.wait.submit();
        self.wait.poison();
    }
}

/// The bookkeeping of one scope: the wait group counting its outstanding
/// tasks.
///
/// The host binds a scope to a borrow-lifetime and erases that lifetime
/// when a task enters the long-lived queue; the erasure is sound because
/// the scope's exit protocol joins this wait group on every exit path, so
/// no task outlives the frame it borrows from.
pub struct ScopeCore {
    wait: WaitGroup,
}

impl ScopeCore {
    /// The scope's wait group.
    pub closed spec fn wait(self) -> WaitGroup {
        self.wait
    }

    /// The scope's wait group obeys conservation.
    pub open spec fn wf(self) -> bool {
        self.wait().wf()
    }

    /// Create a fresh scope with no outstanding tasks — what opening a
    /// scope, nesting one, or binding one to an unbounded lifetime does.
    pub fn new() -> (s: ScopeCore)
        ensures
            s.wf(),
            s.wait().pending() == 0,
            !s.wait().poisoned(),
            s.wait().submits() == 0,
    {
        ScopeCore { wait: WaitGroup::new() }
    }

    /// Submit a task on this scope: count it in the scope's wait group
    /// *first*, then make it visible to workers by pushing its message.
    /// A worker can therefore never retire a task that was not yet
    /// counted. A task submitted with access to the scope itself shares
    /// this same wait group, so a join waits transitively for whatever it
    /// submits in turn.
    pub fn execute(&mut self, pool: &mut PoolCore, task: u64)
        requires
            old(self).wf(),
            old(self).wait().pending() < usize::MAX,
            old(pool).wf(),
        ensures
            final(self).wf(),
            final(self).wait().pending() == old(self).wait().pending() + 1,
            final(self).wait().poisoned() == old(self).wait().poisoned(),
            final(self).wait().submits() == old(self).wait().submits() + 1,
            final(self).wait().completes() == old(self).wait().completes(),
            final(self).wait().poisons() == old(self).wait().poisons(),
            final(pool).wf(),
            final(pool).queue() == old(pool).queue().push(PoolMessage::Task(task)),
            final(pool).wait() == old(pool).wait(),
    {
        self.wait.submit();
        pool.queue.push(PoolMessage::Task(task));
    }

    /// Await the scope's tasks, once the wait group has drained: a joiner
    /// blocks until the outstanding count reaches zero, then observes the
    /// sticky fault flag — a [`Fault`] exactly when some task retired by
    /// fault.
    pub fn join(&self) -> (r: Result<(), Fault>)
        requires
            self.wait().pending() == 0,
        ensures
            r is Err <==> self.wait().poisoned(),
            r is Ok <==> !self.wait().poisoned(),
    {
        self.wait.join()
    }

    /// Exit protocol of a scope: taken on *every* exit path of a
    /// scheduler, after the scheduler has returned or faulted and the
    /// scope has drained. The caller observes exactly one surface — a
    /// [`Fault`] if and only if the scheduler faulted or some task
    /// poisoned the scope; a normal return otherwise. Never both, never
    /// neither.
    pub fn exit(&self, scheduler_faulted: bool) -> (r: Result<(), Fault>)
        requires
            self.wait().pending() == 0,
        ensures
            r is Err <==> (scheduler_faulted || self.wait().poisoned()),
            r is Ok <==> (!scheduler_faulted && !self.wait().poisoned()),
    {
        let joined = self.join();
        if scheduler_faulted {
            Err(Fault)
        } else {
            joined
        }
    }
}

/// The worker side of one scope's whole run, taken to drain: the queue
/// holds the scope's submitted tasks and workers pop and retire them one
/// by one, `faulting[i]` saying whether the `i`-th execution faults.
///
/// Over any such finite sequence of task executions, however many
/// faulted: the live-worker count ends exactly where `new` and `expand`
/// put it; the scope ends drained, so its exit protocol may run; and the
/// scope ends poisoned exactly when some execution faulted — the fault
/// is still there to surface once every sibling has retired, and a clean
/// run surfaces nothing.
pub fn run_scope_tasks(pool: &mut PoolCore, scope: &mut ScopeCore, faulting: &Vec<bool>)
    requires
        old(pool).wf(),
        old(scope).wf(),
        0 < old(pool).wait().pending() < usize::MAX,
        old(pool).queue().len() == faulting@.len(),
        forall|j: int| 0 <= j < old(pool).queue().len() ==> old(pool).queue()[j] is Task,
        old(scope).wait().pending() == old(pool).queue().len(),
    ensures
        final(pool).wf(),
        final(scope).wf(),
        final(pool).queue().len() == 0,
        final(pool).wait().pending() == old(pool).wait().pending(),
        final(scope).wait().pending() == 0,
        final(scope).wait().poisoned() <==> (old(scope).wait().poisoned() || (exists|j: int|
            0 <= j < faulting@.len() && faulting@[j])),
{
    let n = faulting.len();
    let mut i: usize = 0;
    while i < n
        invariant
            pool.wf(),
            scope.wf(),
            i <= n,
            n == faulting@.len(),
            0 < pool.wait().pending() < usize::MAX,
            pool.wait().pending() == old(pool).wait().pending(),
            pool.queue().len() == n - i,
            forall|j: int| 0 <= j < pool.queue().len() ==> pool.queue()[j] is Task,
            scope.wait().pending() == n - i,
            scope.wait().poisoned() <==> (old(scope).wait().poisoned() || (exists|j: int|
                0 <= j < i && faulting@[j])),
        decreases n - i,
    {
        let _message = pool.next_message();
        if faulting[i] {
            pool.worker_task_fault(scope);
        } else {
            pool.worker_task_done(scope);
        }
        i = i + 1;
    }
}

/// Containment law: a scope whose wait group has drained has retired every
/// task ever submitted on it — each ran to completion or was poisoned
/// under fault. Since the exit protocol is taken only on a drained scope,
/// no submitted closure can still be running when control returns to the
/// caller that opened the scope.
pub proof fn lemma_containment(s: ScopeCore)
    requires
        s.wf(),
        s.wait().pending() == 0,
    ensures
        s.wait().retired() == s.wait().submits(),
{
}

/// Worker preservation law: every faulting task retires one worker and
/// registers exactly one replacement, so after any finite run of task
/// executions — however many faulted — the live-worker count is what the
/// explicit starts (`new` plus `expand`) established, less the workers
/// that processed `Quit`.
///
/// The hypothesis `submits == starts + poisons` is what the fault
/// transition maintains: [`PoolCore::worker_task_fault`] pairs each poison
/// of the pool-wide wait group with one replacement registration, and
/// nothing else poisons it.
pub proof fn lemma_worker_preservation(w: WaitGroup, starts: nat)
    requires
        w.wf(),
        w.submits() == starts + w.poisons(),
    ensures
        w.pending() + w.completes() == starts,
        w.completes() <= starts,
{
}

} // verus!
