//! Synchronization core of a scoped thread pool.
//!
//! A scoped pool owns a set of worker threads and runs two kinds of jobs:
//! long-lived detached jobs and short-lived jobs whose closures may borrow
//! data from the stack frame of the caller that opened a scope. The pool
//! guarantees that when a scheduler returns, every job it submitted has
//! finished, and that a fault in a job or in the scheduler is surfaced to
//! the thread that opened the scope, exactly once, after every sibling job
//! has drained.
//!
//! Native threads, panic unwinding and type-erased closures cannot be
//! verified, so the host runtime keeps them; what lives here is the
//! bookkeeping protocol those threads follow, with its invariants proved:
//!
//! - [`waitgroup::WaitGroup`]: the counter-based barrier that ties every
//!   submission to exactly one completion or poisoning.
//! - [`queue::MessageQueue`]: the first-in first-out control channel that
//!   carries `Task` and `Quit` messages to workers.
//! - [`pool::PoolCore`] and [`pool::ScopeCore`]: the transitions a worker
//!   or a scheduler takes at each step of its loop — registration,
//!   dispatch, orderly quit, fault repair, and the exit protocol of a
//!   scope.

pub mod pool;
pub mod queue;
pub mod waitgroup;

use vstd::prelude::*;

verus! {

/// The single error kind of the pool: a job or a scheduler terminated
/// abnormally. A joiner of a poisoned wait group observes exactly this
/// value in place of a normal return.
#[derive(Clone, Copy, Debug, PartialEq, Eq, Structural)]
pub struct Fault;

} // verus!
