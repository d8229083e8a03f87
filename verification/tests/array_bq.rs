use std::sync::{
    atomic::{AtomicUsize, Ordering},
    Arc,
};

use hio::{ArrayBQ, HioLastError, BQ};

#[derive(Debug)]
struct DropCounter {
    counter: Arc<AtomicUsize>,
}

impl DropCounter {
    fn new(counter: &Arc<AtomicUsize>) -> Self {
        Self { counter: counter.clone() }
    }
}

impl Drop for DropCounter {
    fn drop(&mut self) {
        self.counter.fetch_add(1, Ordering::SeqCst);
    }
}

#[test]
fn array_bq_fifo_order_single_thread() {
    let mut q = ArrayBQ::<i32>::new(4);
    for i in 0..4 {
        q.push(i).unwrap();
    }
    assert_eq!(q.size(), 4);
    for i in 0..4 {
        assert_eq!(q.pop().unwrap(), i);
    }
    assert_eq!(q.size(), 0);
}

#[test]
fn array_bq_capacity_and_size() {
    let mut q = ArrayBQ::<u8>::new(2);
    assert_eq!(q.capacity(), 2);
    assert_eq!(q.size(), 0);
    q.push(1).unwrap();
    q.push(2).unwrap();
    assert_eq!(q.size(), 2);
    q.pop().unwrap();
    assert_eq!(q.size(), 1);
}

#[test]
fn array_bq_dispose_drains_remaining_items() {
    let mut q = ArrayBQ::<i32>::new(8);
    q.push(1).unwrap();
    q.push(2).unwrap();
    q.push(3).unwrap();

    q.dispose();
    assert!(q.is_disposed());

    assert_eq!(q.pop().unwrap(), 1);
    assert_eq!(q.pop().unwrap(), 2);
    assert_eq!(q.pop().unwrap(), 3);
    assert!(
        matches!(q.pop(), Err(HioLastError::ResourceUnavailable)),
        "pop on a drained, disposed queue must fail"
    );
}

#[test]
fn array_bq_push_fails_after_dispose() {
    let mut q = ArrayBQ::<i32>::new(4);
    q.dispose();

    let (err, item) = q.push(1).expect_err("push must fail after dispose");
    assert!(
        matches!(err, HioLastError::ResourceUnavailable),
        "unexpected error kind: {err:?}"
    );
    assert_eq!(item, 1, "failed push must return the original item");
}

#[test]
fn array_bq_failed_push_returns_item_without_dropping() {
    let counter = Arc::new(AtomicUsize::new(0));
    {
        let mut q = ArrayBQ::<DropCounter>::new(4);
        q.dispose();

        let (err, returned) = q
            .push(DropCounter::new(&counter))
            .expect_err("push must fail after dispose");

        assert!(
            matches!(err, HioLastError::ResourceUnavailable),
            "unexpected error kind: {err:?}"
        );
        assert_eq!(
            counter.load(Ordering::SeqCst),
            0,
            "failed push dropped the item instead of returning it"
        );

        drop(returned);
        assert_eq!(
            counter.load(Ordering::SeqCst),
            1,
            "returned item was not dropped exactly once"
        );
    }
    assert_eq!(
        counter.load(Ordering::SeqCst),
        1,
        "double free or leak after queue drop"
    );
}

#[test]
fn array_bq_unbounded_never_blocks_push() {
    let mut q = ArrayBQ::<usize>::new(usize::MAX);
    for i in 0..1000 {
        q.push(i).unwrap();
    }
    assert_eq!(q.size(), 1000);
    assert_eq!(q.pop().unwrap(), 0);
}

#[test]
fn array_bq_no_leak_on_drop_with_pending_items() {
    let counter = Arc::new(AtomicUsize::new(0));
    {
        let mut q = ArrayBQ::<DropCounter>::new(16);
        for _ in 0..8 {
            q.push(DropCounter::new(&counter)).unwrap();
        }
    }
    assert_eq!(
        counter.load(Ordering::SeqCst),
        8,
        "unconsumed items leaked when the queue was dropped"
    );
}

#[test]
fn array_bq_no_leak_on_dispose_partial_drain_drop() {
    let counter = Arc::new(AtomicUsize::new(0));
    {
        let mut q = ArrayBQ::<DropCounter>::new(16);
        for _ in 0..10 {
            q.push(DropCounter::new(&counter)).unwrap();
        }
        q.dispose();
        for _ in 0..4 {
            drop(q.pop().unwrap());
        }
    }
    assert_eq!(
        counter.load(Ordering::SeqCst),
        10,
        "drop count mismatch after dispose with a partial drain"
    );
}

#[test]
fn try_push_fails_when_full() {
    let mut q = ArrayBQ::<i32>::new(1);
    q.push(1).unwrap();

    let (err, item) = q
        .try_push(2)
        .expect_err("try_push must fail on a full queue");
    assert!(
        matches!(err, HioLastError::WouldBlock),
        "unexpected error kind: {err:?}"
    );
    assert_eq!(item, 2, "failed try_push must return the original item");
    assert_eq!(q.size(), 1, "failed try_push must not modify the queue");
}

#[test]
fn try_pop_fails_when_empty() {
    let mut q = ArrayBQ::<i32>::new(4);
    assert!(matches!(q.try_pop(), Err(HioLastError::WouldBlock)));

    q.push(7).unwrap();
    assert_eq!(q.try_pop().unwrap(), 7);
    assert!(matches!(q.try_pop(), Err(HioLastError::WouldBlock)));
}

#[test]
fn try_ops_report_resource_unavailable_after_dispose() {
    let mut q = ArrayBQ::<i32>::new(4);
    q.dispose();

    let (err, item) = q.try_push(1).expect_err("try_push must fail after dispose");
    assert!(
        matches!(err, HioLastError::ResourceUnavailable),
        "dispose must take precedence over WouldBlock: {err:?}"
    );
    assert_eq!(item, 1);
    assert!(matches!(
        q.try_pop(),
        Err(HioLastError::ResourceUnavailable)
    ));
}

#[test]
fn try_pop_drains_remaining_items_after_dispose() {
    let mut q = ArrayBQ::<i32>::new(4);
    q.push(1).unwrap();
    q.push(2).unwrap();
    q.dispose();

    assert_eq!(q.try_pop().unwrap(), 1);
    assert_eq!(q.try_pop().unwrap(), 2);
    assert!(matches!(
        q.try_pop(),
        Err(HioLastError::ResourceUnavailable)
    ));
}

// A push on a full queue waits; here each wait runs out, which the queue is
// told as `timed_out`.
#[test]
fn push_timeout_never_exceeds_capacity() {
    const CAP: usize = 2;
    let mut q = ArrayBQ::<usize>::new(CAP);
    for i in 0..CAP {
        q.push(i).unwrap();
    }

    for _ in 0..3 {
        assert!(q.push_must_wait());
        let res = q.push_timeout(999, true);
        assert!(matches!(res, Err((HioLastError::Timeout, 999))));
        assert!(
            q.size() <= CAP,
            "queue grew past its capacity: {} > {CAP}",
            q.size()
        );
    }
}

// An empty queue makes a pop wait; here the wait runs out, which the queue
// is told as `timed_out`.
#[test]
fn pop_timeout_expires_on_empty_queue() {
    let mut q = ArrayBQ::<i32>::new(4);
    assert!(q.pop_must_wait());

    let res = q.pop_timeout(true);

    assert!(
        matches!(res, Err(HioLastError::Timeout)),
        "expected Timeout, got {res:?}"
    );
}

// A full queue makes a push wait; here the wait runs out, which the queue
// is told as `timed_out`, and the item comes back.
#[test]
fn push_timeout_expires_and_returns_the_item() {
    let counter = Arc::new(AtomicUsize::new(0));
    let mut q = ArrayBQ::<DropCounter>::new(1);
    q.push(DropCounter::new(&counter)).unwrap();
    assert!(q.push_must_wait());

    let (err, returned) = q
        .push_timeout(DropCounter::new(&counter), true)
        .expect_err("push_timeout must fail on a full queue");

    assert!(
        matches!(err, HioLastError::Timeout),
        "unexpected error kind: {err:?}"
    );
    assert_eq!(
        counter.load(Ordering::SeqCst),
        0,
        "timed-out push dropped the item instead of returning it"
    );

    drop(returned);
    assert_eq!(counter.load(Ordering::SeqCst), 1);
}

#[test]
fn drain_collects_everything_in_fifo_order() {
    let mut q = ArrayBQ::<i32>::new(8);
    for i in 0..5 {
        q.push(i).unwrap();
    }

    assert_eq!(q.drain(), vec![0, 1, 2, 3, 4]);
    assert_eq!(q.size(), 0);

    assert!(
        q.drain().is_empty(),
        "draining an empty queue must be a no-op"
    );
}

#[test]
fn drain_collects_remainder_after_dispose() {
    let mut q = ArrayBQ::<i32>::new(8);
    for i in 0..4 {
        q.push(i).unwrap();
    }
    q.dispose();

    assert_eq!(q.pop().unwrap(), 0);
    assert_eq!(q.drain(), vec![1, 2, 3]);
    assert!(matches!(q.pop(), Err(HioLastError::ResourceUnavailable)));
}

#[test]
fn drain_does_not_leak_or_double_free() {
    let counter = Arc::new(AtomicUsize::new(0));
    {
        let mut q = ArrayBQ::<DropCounter>::new(16);
        for _ in 0..6 {
            q.push(DropCounter::new(&counter)).unwrap();
        }

        let drained = q.drain();
        assert_eq!(drained.len(), 6);
        assert_eq!(
            counter.load(Ordering::SeqCst),
            0,
            "drain must transfer ownership, not drop"
        );

        drop(drained);
        assert_eq!(counter.load(Ordering::SeqCst), 6);
    }
    assert_eq!(
        counter.load(Ordering::SeqCst),
        6,
        "double free after queue drop"
    );
}
