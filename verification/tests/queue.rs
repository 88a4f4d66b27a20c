use scoped_pool::queue::{MessageQueue, PoolMessage};

#[test]
fn pop_on_empty_queue_returns_none() {
    let mut q = MessageQueue::new();
    assert_eq!(q.pop(), None);
    assert_eq!(q.len(), 0);
}

#[test]
fn fifo_dequeue_order_equals_enqueue_order() {
    let mut q = MessageQueue::new();
    for t in 0..10u64 {
        q.push(PoolMessage::Task(t));
    }
    assert_eq!(q.len(), 10);
    for t in 0..10u64 {
        assert_eq!(q.pop(), Some(PoolMessage::Task(t)));
    }
    assert_eq!(q.pop(), None);
}

#[test]
fn interleaved_pushes_and_pops_keep_order() {
    let mut q = MessageQueue::new();
    q.push(PoolMessage::Task(1));
    q.push(PoolMessage::Task(2));
    assert_eq!(q.pop(), Some(PoolMessage::Task(1)));
    q.push(PoolMessage::Quit);
    q.push(PoolMessage::Task(3));
    assert_eq!(q.pop(), Some(PoolMessage::Task(2)));
    assert_eq!(q.pop(), Some(PoolMessage::Quit));
    assert_eq!(q.pop(), Some(PoolMessage::Task(3)));
    assert_eq!(q.pop(), None);
}
