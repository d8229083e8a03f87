use hio::error::HioLastError;
use hio::executor::{ensure_num_workers, TaskLimiter};
use hio::ffi::{panic_message, settle, CallOutcome, FfiHandle, HioRuntime, HioRuntimeConfig, PanicPayload};
use hio::inbox::{Inbox, InboxMsg};
use hio::transport::{read_outcome, FlushStep, IoFailure, ReadOutcome, WriteBuffer};

#[test]
fn error_codes_round_trip() {
    let all = [
        HioLastError::Success,
        HioLastError::Failed,
        HioLastError::InvalidParam,
        HioLastError::InvalidState,
        HioLastError::InvalidOperation,
        HioLastError::ResourceUnavailable,
        HioLastError::Timeout,
        HioLastError::MutexPoisoned,
        HioLastError::WouldBlock,
    ];
    for e in all {
        assert_eq!(HioLastError::from_code(e.code()), Some(e));
    }
    assert_eq!(HioLastError::ResourceUnavailable.code(), 1003);
    assert_eq!(HioLastError::Success.code(), 0);
    assert_eq!(HioLastError::from_code(2), None);
}

#[test]
fn settle_hands_back_value_or_fallback() {
    assert_eq!(settle(0, CallOutcome::Returned(Ok(7))), (7, HioLastError::Success));
    assert_eq!(
        settle(0, CallOutcome::Returned(Err(HioLastError::InvalidParam))),
        (0, HioLastError::InvalidParam)
    );
    assert_eq!(settle(-1, CallOutcome::Panicked), (-1, HioLastError::Failed));
}

#[test]
fn panic_messages() {
    assert_eq!(panic_message(&PanicPayload::Str("boom")), "boom");
    assert_eq!(panic_message(&PanicPayload::Text("bang".to_string())), "bang");
    assert_eq!(panic_message(&PanicPayload::Unknown), "unknown panic");
}

#[test]
fn handles_and_runtime() {
    let h = FfiHandle::new(5u8);
    assert_eq!(*h.get(), 5);
    let cfg = HioRuntimeConfig::new();
    let _rt = HioRuntime::new(&cfg);
}

#[test]
fn worker_count_defaults() {
    assert_eq!(ensure_num_workers(0, Some(8)), 8);
    assert_eq!(ensure_num_workers(0, None), 1);
    assert_eq!(ensure_num_workers(3, Some(8)), 3);
}

#[test]
fn task_limiter_caps_and_rejects_after_dispose() {
    let mut l = TaskLimiter::new(2);
    assert!(!l.must_wait());
    assert!(l.acquire());
    assert!(l.acquire());
    assert!(l.must_wait());
    l.release();
    assert_eq!(l.count(), 1);
    assert!(l.dispose());
    assert!(!l.dispose());
    assert!(l.is_disposed());
    assert!(!l.must_wait());
    assert!(!l.acquire());
    assert_eq!(l.count(), 1);
    let mut u = TaskLimiter::new(0);
    for _ in 0..100 {
        assert!(!u.must_wait());
        assert!(u.acquire());
    }
    assert_eq!(u.count(), 100);
}

#[test]
fn inbox_submits_one_drain_job_at_a_time() {
    let mut b = Inbox::new(9);
    assert_eq!(b.id(), 9);
    assert!(b.enqueue(InboxMsg::Connected));
    assert!(!b.enqueue(InboxMsg::Data(vec![1, 2])));
    assert!(matches!(b.next_message(), Some(InboxMsg::Connected)));
    assert!(matches!(b.next_message(), Some(InboxMsg::Data(d)) if d == vec![1, 2]));
    assert!(b.next_message().is_none());
    assert!(b.enqueue(InboxMsg::Closed));
}

#[test]
fn read_outcomes() {
    assert_eq!(read_outcome(Ok(0)), ReadOutcome::Eof);
    assert_eq!(read_outcome(Ok(12)), ReadOutcome::Data(12));
    assert_eq!(read_outcome(Err(IoFailure::WouldBlock)), ReadOutcome::Idle);
    assert_eq!(read_outcome(Err(IoFailure::Interrupted)), ReadOutcome::Idle);
    assert_eq!(read_outcome(Err(IoFailure::Other)), ReadOutcome::Eof);
}

#[test]
fn write_buffer_flushes_in_order() {
    let mut w = WriteBuffer::new();
    assert!(w.is_empty());
    w.write_payload(vec![1, 2, 3]);
    w.write_payload(vec![4, 5]);
    assert_eq!(w.pending(), &[1, 2, 3, 4, 5]);
    assert_eq!(w.flush_step(Ok(2)), FlushStep::Again);
    assert_eq!(w.pending(), &[3, 4, 5]);
    assert_eq!(w.flush_step(Err(IoFailure::WouldBlock)), FlushStep::Pending);
    assert_eq!(w.flush_step(Ok(0)), FlushStep::Pending);
    assert_eq!(w.flush_step(Err(IoFailure::Interrupted)), FlushStep::Again);
    assert_eq!(w.flush_step(Err(IoFailure::Other)), FlushStep::Failed);
    assert_eq!(w.pending(), &[3, 4, 5]);
    assert_eq!(w.flush_step(Ok(3)), FlushStep::Done);
    assert!(w.is_empty());
}
