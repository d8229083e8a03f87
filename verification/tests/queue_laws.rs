use hio::bq::{ensure_capacity, CachePadded, CondWaiters, Signals};
use hio::{create_bq, ArrayBQ, BQType, BoundedQueue, HioLastError, LinkedBQ, BQ};

fn fifo_through<Q: BQ<u32>>(q: &mut Q) {
    for round in 0..50u32 {
        for i in 0..3u32 {
            q.push(round * 10 + i).unwrap();
        }
        for i in 0..3u32 {
            assert_eq!(q.pop().unwrap(), round * 10 + i);
        }
    }
    assert_eq!(q.size(), 0);
}

#[test]
fn fifo_holds_over_many_rounds_in_both_queues() {
    let mut a = ArrayBQ::<u32>::new(3);
    let mut l = LinkedBQ::<u32>::new(3);
    fifo_through(&mut a);
    fifo_through(&mut l);
}

#[test]
fn ensure_capacity_maps_zero_to_unbounded() {
    assert_eq!(ensure_capacity(0), usize::MAX);
    assert_eq!(ensure_capacity(5), 5);
    assert_eq!(ArrayBQ::<u8>::new(0).capacity(), usize::MAX);
    assert_eq!(LinkedBQ::<u8>::new(0).capacity(), usize::MAX);
}

#[test]
fn create_bq_builds_the_kind_asked_for() {
    let a: BoundedQueue<i32> = create_bq(BQType::Array, 3);
    assert!(matches!(a, BoundedQueue::Array(_)));
    assert_eq!(a.capacity(), 3);
    let mut l: BoundedQueue<i32> = create_bq(BQType::Linked, 0);
    assert!(matches!(l, BoundedQueue::Linked(_)));
    assert_eq!(l.capacity(), usize::MAX);
    l.push(4).unwrap();
    l.push(5).unwrap();
    assert_eq!(l.pop().unwrap(), 4);
    assert_eq!(l.size(), 1);
}

#[test]
fn must_wait_follows_room_and_dispose() {
    let mut q = LinkedBQ::<i32>::new(1);
    assert!(q.pop_must_wait());
    assert!(!q.push_must_wait());
    q.push(1).unwrap();
    assert!(q.push_must_wait());
    assert!(!q.pop_must_wait());
    assert_eq!(q.pop().unwrap(), 1);
    assert!(q.pop_must_wait());
    assert!(q.dispose());
    assert!(!q.dispose(), "only the first dispose reports itself");
    assert!(!q.pop_must_wait());
    assert!(!q.push_must_wait());
}

#[test]
fn push_signals_consumer_when_queue_was_empty() {
    let mut q = ArrayBQ::<i32>::new(3);
    q.enter_pop_wait();
    q.enter_push_wait();
    q.push(1).unwrap();
    assert_eq!(
        q.signals(),
        Signals { signal_not_empty: true, signal_not_full: true }
    );
    q.push(2).unwrap();
    assert_eq!(
        q.signals(),
        Signals { signal_not_empty: false, signal_not_full: true }
    );
    q.push(3).unwrap();
    assert_eq!(
        q.signals(),
        Signals { signal_not_empty: false, signal_not_full: false }
    );
}

#[test]
fn try_push_signals_like_push() {
    let mut a = LinkedBQ::<i32>::new(4);
    let mut b = LinkedBQ::<i32>::new(4);
    a.enter_pop_wait();
    b.enter_pop_wait();
    a.push(42).unwrap();
    b.try_push(42).unwrap();
    assert_eq!(a.signals(), b.signals());
    assert!(a.signals().signal_not_empty);
}

#[test]
fn pop_from_full_queue_signals_producer() {
    let mut q = LinkedBQ::<i32>::new(2);
    q.push(1).unwrap();
    q.push(2).unwrap();
    q.enter_push_wait();
    q.enter_pop_wait();
    assert_eq!(q.pop().unwrap(), 1);
    assert_eq!(
        q.signals(),
        Signals { signal_not_empty: true, signal_not_full: true }
    );
    q.leave_push_wait();
    q.leave_pop_wait();
    assert_eq!(q.pop().unwrap(), 2);
    assert_eq!(
        q.signals(),
        Signals { signal_not_empty: false, signal_not_full: false }
    );
}

#[test]
fn drain_wakes_producers_only_when_items_and_waiters() {
    let mut q = ArrayBQ::<i32>::new(2);
    q.push(1).unwrap();
    q.enter_push_wait();
    assert_eq!(q.drain(), vec![1]);
    assert!(q.drain_wakes_producers());
    assert!(q.drain().is_empty());
    assert!(!q.drain_wakes_producers());
    let mut l = LinkedBQ::<i32>::new(2);
    l.push(7).unwrap();
    l.push(8).unwrap();
    assert_eq!(l.drain(), vec![7, 8]);
    assert!(!l.drain_wakes_producers());
    assert_eq!(l.size(), 0);
    l.push(9).unwrap();
    assert_eq!(l.pop().unwrap(), 9);
}

#[test]
fn timed_pop_reports_timeout_before_anything_else() {
    let mut q = LinkedBQ::<i32>::new(2);
    assert!(matches!(q.pop_timeout(true), Err(HioLastError::Timeout)));
    q.push(3).unwrap();
    assert_eq!(q.pop_timeout(false).unwrap(), 3);
    q.dispose();
    assert!(matches!(
        q.pop_timeout(false),
        Err(HioLastError::ResourceUnavailable)
    ));
    let mut a = ArrayBQ::<i32>::new(1);
    a.push(1).unwrap();
    a.dispose();
    assert!(matches!(
        a.push_timeout(2, false),
        Err((HioLastError::ResourceUnavailable, 2))
    ));
    assert_eq!(a.pop_timeout(false).unwrap(), 1);
}

#[test]
fn waiter_counts_round_trip() {
    let mut w = CondWaiters::new();
    assert!(!w.any());
    for _ in 0..20 {
        w.enter();
        assert_eq!(w.count(), 1);
        w.leave();
    }
    assert_eq!(w.count(), 0);
    assert!(!w.any());
}

#[test]
fn cache_padded_holds_its_value() {
    let p = CachePadded::new(17u64);
    assert_eq!(*p.get(), 17);
}

#[test]
fn linked_queue_reuses_slots_across_many_cycles() {
    let mut q = LinkedBQ::<String>::new(2);
    for i in 0..500 {
        q.push(format!("a{i}")).unwrap();
        q.push(format!("b{i}")).unwrap();
        assert_eq!(q.pop().unwrap(), format!("a{i}"));
        assert_eq!(q.pop().unwrap(), format!("b{i}"));
    }
    assert_eq!(q.size(), 0);
}
