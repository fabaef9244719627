use adaptive_reasoner::consts::CHANNEL_BUFFER_SIZE;
use adaptive_reasoner::queue::{BoundedQueue, Received, SendError};

#[test]
fn what_goes_in_comes_out_in_the_same_order() {
    let mut queue: BoundedQueue<u32> = BoundedQueue::new(3);
    assert_eq!(queue.len(), 0);
    assert!(queue.try_send(1).is_ok());
    assert!(queue.try_send(2).is_ok());
    assert!(matches!(queue.try_recv(), Received::Item(1)));
    assert!(queue.try_send(3).is_ok());
    assert!(matches!(queue.try_recv(), Received::Item(2)));
    assert!(matches!(queue.try_recv(), Received::Item(3)));
    assert!(matches!(queue.try_recv(), Received::Empty));
    assert_eq!(queue.len(), 0);
}

#[test]
fn a_full_queue_holds_the_producer_back() {
    let mut queue: BoundedQueue<usize> = BoundedQueue::new(CHANNEL_BUFFER_SIZE);
    for i in 0..100 {
        assert!(queue.try_send(i).is_ok());
    }
    assert_eq!(queue.len(), 100);
    assert!(matches!(queue.try_send(100), Err(SendError::Full(100))));
    assert_eq!(queue.len(), 100);
    assert!(matches!(queue.try_recv(), Received::Item(0)));
    assert!(queue.try_send(100).is_ok());
    assert!(matches!(queue.try_send(101), Err(SendError::Full(101))));
}

#[test]
fn a_closed_queue_tells_the_producer_to_stop() {
    let mut queue: BoundedQueue<&str> = BoundedQueue::new(2);
    assert!(queue.try_send("a").is_ok());
    assert!(!queue.closed());
    queue.close();
    assert!(queue.closed());
    assert_eq!(queue.len(), 0);
    assert!(matches!(queue.try_send("b"), Err(SendError::Closed("b"))));
    assert!(matches!(queue.try_recv(), Received::Empty));
}

#[test]
fn an_ended_queue_is_drained_and_then_over() {
    let mut queue: BoundedQueue<&str> = BoundedQueue::new(2);
    assert!(queue.try_send("a").is_ok());
    assert!(queue.try_send("b").is_ok());
    queue.end();
    assert!(matches!(queue.try_send("c"), Err(SendError::Closed("c"))));
    assert!(matches!(queue.try_recv(), Received::Item("a")));
    assert!(matches!(queue.try_recv(), Received::Item("b")));
    assert!(matches!(queue.try_recv(), Received::Ended));
    assert!(matches!(queue.try_recv(), Received::Ended));
}
