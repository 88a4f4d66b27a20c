use scoped_pool::pool::{run_scope_tasks, PoolCore, ScopeCore};
use scoped_pool::queue::PoolMessage;
use scoped_pool::Fault;

#[test]
fn new_pool_registers_the_requested_workers() {
    let p = PoolCore::new(4);
    assert_eq!(p.workers(), 4);
}

#[test]
fn expand_adds_one_worker() {
    let mut p = PoolCore::empty();
    assert_eq!(p.workers(), 0);
    p.expand();
    assert_eq!(p.workers(), 1);
    p.expand();
    assert_eq!(p.workers(), 2);
}

#[test]
fn zero_sized_pool_is_usable_and_an_empty_scope_exits_normally() {
    // A pool of zero workers still opens a scope; with nothing submitted
    // its wait group is already drained, so the exit protocol runs at
    // once instead of waiting on workers that do not exist.
    let p = PoolCore::new(0);
    assert_eq!(p.workers(), 0);
    let s = ScopeCore::new();
    assert_eq!(s.exit(false), Ok(()));
}

#[test]
fn shutdown_of_a_pool_with_no_workers_finishes_immediately() {
    let mut p = PoolCore::new(0);
    p.begin_shutdown();
    // No worker is registered, so the pool-wide wait group is already
    // drained and the shutdown join proceeds without blocking.
    assert_eq!(p.finish_shutdown(), Ok(()));
}

#[test]
fn quit_cascades_until_every_worker_has_exited() {
    let mut p = PoolCore::new(2);
    p.begin_shutdown();

    // First worker pops the Quit, re-pushes it for its peer, and exits.
    assert_eq!(p.next_message(), Some(PoolMessage::Quit));
    p.worker_quit();
    assert_eq!(p.workers(), 1);

    // Second worker sees the re-pushed Quit and exits too.
    assert_eq!(p.next_message(), Some(PoolMessage::Quit));
    p.worker_quit();
    assert_eq!(p.workers(), 0);

    assert_eq!(p.finish_shutdown(), Ok(()));
}

#[test]
fn submitted_tasks_reach_workers_in_submission_order() {
    let mut p = PoolCore::new(1);
    let mut s = ScopeCore::new();
    s.execute(&mut p, 10);
    s.execute(&mut p, 11);
    assert_eq!(p.next_message(), Some(PoolMessage::Task(10)));
    assert_eq!(p.next_message(), Some(PoolMessage::Task(11)));
}

#[test]
fn scope_with_all_tasks_done_exits_normally() {
    let mut p = PoolCore::new(4);
    let mut s = ScopeCore::new();
    for t in 0..4u64 {
        s.execute(&mut p, t);
    }
    for _ in 0..4 {
        assert!(matches!(p.next_message(), Some(PoolMessage::Task(_))));
        p.worker_task_done(&mut s);
    }
    assert_eq!(s.exit(false), Ok(()));
    assert_eq!(p.workers(), 4);
}

#[test]
fn faulting_task_surfaces_exactly_one_fault_to_the_scope_opener() {
    let mut p = PoolCore::new(4);
    let mut s = ScopeCore::new();
    s.execute(&mut p, 0);
    assert_eq!(p.next_message(), Some(PoolMessage::Task(0)));
    p.worker_task_fault(&mut s);
    assert_eq!(s.exit(false), Err(Fault));
}

#[test]
fn faulting_task_does_not_shrink_the_pool() {
    let mut p = PoolCore::new(4);
    let mut s = ScopeCore::new();
    for t in 0..3u64 {
        s.execute(&mut p, t);
    }
    p.next_message();
    p.worker_task_done(&mut s);
    p.next_message();
    p.worker_task_fault(&mut s);
    p.next_message();
    p.worker_task_fault(&mut s);
    // Two workers died under fault; each registered a replacement before
    // retiring, so the live count never moved.
    assert_eq!(p.workers(), 4);
}

#[test]
fn fault_waits_for_every_sibling_before_surfacing() {
    let mut p = PoolCore::new(4);
    let mut s = ScopeCore::new();
    for t in 0..10u64 {
        s.execute(&mut p, t);
    }
    // The third task faults; the scope still counts the other nine until
    // each has retired, and only the drained scope runs its exit.
    for t in 0..10u64 {
        p.next_message();
        if t == 2 {
            p.worker_task_fault(&mut s);
        } else {
            p.worker_task_done(&mut s);
        }
    }
    assert_eq!(s.exit(false), Err(Fault));
}

#[test]
fn scheduler_fault_surfaces_after_tasks_drain() {
    let mut p = PoolCore::new(4);
    let mut s = ScopeCore::new();
    for t in 0..5u64 {
        s.execute(&mut p, t);
    }
    for _ in 0..5 {
        p.next_message();
        p.worker_task_done(&mut s);
    }
    // Every task ran and retired normally; the scheduler's own fault is
    // still surfaced, exactly once.
    assert_eq!(s.exit(true), Err(Fault));
}

#[test]
fn a_task_may_submit_a_child_on_the_same_scope() {
    let mut p = PoolCore::new(12);
    let mut s = ScopeCore::new();
    s.execute(&mut p, 0);

    // The running task submits a child on its own scope before retiring;
    // the shared wait group counts the child, so the scope stays open
    // until the child has retired too.
    assert_eq!(p.next_message(), Some(PoolMessage::Task(0)));
    s.execute(&mut p, 1);
    p.worker_task_done(&mut s);

    assert_eq!(p.next_message(), Some(PoolMessage::Task(1)));
    p.worker_task_done(&mut s);
    assert_eq!(s.exit(false), Ok(()));
}

#[test]
fn a_whole_run_with_faults_preserves_workers_and_surfaces_once() {
    let mut p = PoolCore::new(4);
    let mut s = ScopeCore::new();
    for t in 0..6u64 {
        s.execute(&mut p, t);
    }
    let faulting = vec![false, true, false, false, true, false];
    run_scope_tasks(&mut p, &mut s, &faulting);
    assert_eq!(p.workers(), 4);
    assert_eq!(s.exit(false), Err(Fault));
}

#[test]
fn a_whole_run_without_faults_surfaces_nothing() {
    let mut p = PoolCore::new(2);
    let mut s = ScopeCore::new();
    for t in 0..8u64 {
        s.execute(&mut p, t);
    }
    let faulting = vec![false; 8];
    run_scope_tasks(&mut p, &mut s, &faulting);
    assert_eq!(p.workers(), 2);
    assert_eq!(s.exit(false), Ok(()));
}

#[test]
fn nested_scope_drains_before_the_outer_one_continues() {
    let mut p = PoolCore::new(4);
    let mut outer = ScopeCore::new();
    outer.execute(&mut p, 1);

    // A nested scope has its own wait group and joins on its own exit.
    let mut inner = ScopeCore::new();
    inner.execute(&mut p, 2);
    p.next_message();
    assert_eq!(p.next_message(), Some(PoolMessage::Task(2)));
    p.worker_task_done(&mut inner);
    assert_eq!(inner.exit(false), Ok(()));

    // The outer scope still owes its own task.
    p.worker_task_done(&mut outer);
    assert_eq!(outer.exit(false), Ok(()));
}
