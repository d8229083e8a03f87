use hio::futex::{wait_millis, MAX_WAIT_MILLIS};
use hio::condvar_semaphore::{CondvarSemaphore, CondvarStep};
use hio::counting_semaphore::Semaphore as CountingSemaphore;
use hio::futex_semaphore::{FutexSemaphore, SlowStep};
use hio::semaphore::{ensure_permits, WakeAction, MAX_PERMITS};
use hio::{create_semaphore, FutexWord, HioLastError, Semaphore, SemaphoreType};

#[test]
fn futex_word_operations() {
    let mut w = FutexWord::new(5);
    assert_eq!(w.fetch_add(3), 5);
    assert_eq!(w.load(), 8);
    assert_eq!(w.fetch_sub(10), 8);
    assert_eq!(w.load(), u32::MAX - 1);
    assert_eq!(w.compare_exchange(1, 2), Err(u32::MAX - 1));
    assert_eq!(w.compare_exchange(u32::MAX - 1, 2), Ok(u32::MAX - 1));
    assert_eq!(w.compare_exchange_weak(2, 9), Ok(2));
    assert_eq!(w.load(), 9);
}

#[test]
fn futex_semaphore_counts_permits() {
    let mut s = create_semaphore(SemaphoreType::FutexSem, 2);
    assert_eq!(s.available_permits(), 2);
    assert_eq!(s.try_acquire(), Ok(()));
    s.acquire();
    assert_eq!(s.try_acquire(), Err(HioLastError::Failed));
    assert_eq!(s.release(0), WakeAction::Nobody);
    assert_eq!(s.release(3), WakeAction::Nobody);
    assert_eq!(s.available_permits(), 3);
}

#[test]
fn futex_semaphore_slow_path() {
    let mut s = FutexSemaphore::new(0);
    s.acquire_slow_enter();
    s.acquire_slow_enter();
    assert_eq!(s.acquire_slow(), SlowStep::Wait);
    assert_eq!(s.release(1), WakeAction::Each(1));
    assert_eq!(s.acquire_slow(), SlowStep::Acquired);
    assert_eq!(s.release(5), WakeAction::All);
    assert_eq!(s.acquire_slow(), SlowStep::Acquired);
    assert_eq!(s.available_permits(), 4);
}

#[test]
fn futex_wake_plan() {
    assert_eq!(FutexSemaphore::wake_waiters(3, 2), WakeAction::All);
    assert_eq!(FutexSemaphore::wake_waiters(3, 3), WakeAction::All);
    assert_eq!(FutexSemaphore::wake_waiters(2, 7), WakeAction::Each(2));
}

#[test]
fn futex_semaphore_may_hold_max_permits() {
    let mut s = FutexSemaphore::make(MAX_PERMITS - 1);
    s.release(1);
    assert_eq!(s.available_permits(), MAX_PERMITS);
}

#[test]
fn condvar_semaphore_saturates_and_wakes() {
    let mut s = CondvarSemaphore::new(u32::MAX - 1);
    assert_eq!(s.release(5), WakeAction::Nobody);
    assert_eq!(s.available_permits(), u32::MAX);
    let mut t = CondvarSemaphore::new(0);
    t.enter_waiter();
    assert_eq!(t.acquire_slow(false), CondvarStep::Wait);
    assert_eq!(t.acquire_slow(true), CondvarStep::TimedOut);
    assert_eq!(t.release(1), WakeAction::One);
    assert_eq!(t.acquire_slow(true), CondvarStep::Acquired);
    assert_eq!(t.release(2), WakeAction::All);
    t.leave_waiter();
    assert_eq!(t.release(2), WakeAction::Nobody);
    assert_eq!(t.try_acquire(), Ok(()));
    assert_eq!(t.available_permits(), 3);
    assert!(t.try_get_permit());
    t.acquire();
    assert_eq!(t.try_acquire(), Ok(()));
    assert_eq!(t.try_acquire(), Err(HioLastError::Failed));
}

#[test]
fn counting_semaphore_refuses_empty_release() {
    let mut s = CountingSemaphore::new(1);
    assert_eq!(s.acquire(), Ok(()));
    assert_eq!(s.try_acquire(), Err(HioLastError::ResourceUnavailable));
    assert_eq!(s.release(0), Err(HioLastError::InvalidParam));
    assert_eq!(s.release(1), Ok(WakeAction::One));
    assert_eq!(s.release(2), Ok(WakeAction::All));
    assert_eq!(s.try_acquire(), Ok(()));
    assert!(s.try_get_permit());
    assert!(s.try_get_permit());
    assert!(!s.try_get_permit());
}

#[test]
fn ensure_permits_gives_at_least_one() {
    assert_eq!(ensure_permits(0), 1);
    assert_eq!(ensure_permits(9), 9);
}

#[test]
fn condvar_slow_path_then_permits_read() {
    let mut s = CondvarSemaphore::new(1);
    s.enter_waiter();
    assert_eq!(s.acquire_slow(false), CondvarStep::Acquired);
    s.leave_waiter();
    assert_eq!(s.available_permits(), 0);
    let mut z = CondvarSemaphore::new(0);
    z.enter_waiter();
    assert_eq!(z.acquire_slow(true), CondvarStep::TimedOut);
    z.leave_waiter();
    assert_eq!(z.available_permits(), 0);
}

#[test]
fn windows_wait_millis_rounds_up_and_clamps() {
    assert_eq!(wait_millis(0), 1);
    assert_eq!(wait_millis(1), 1);
    assert_eq!(wait_millis(1_000_000), 1);
    assert_eq!(wait_millis(1_000_001), 2);
    assert_eq!(wait_millis(20_000_000), 20);
    assert_eq!(wait_millis(u128::MAX), MAX_WAIT_MILLIS);
}
