//! Counting semaphores: what they share, and the factory.
//!
//! A semaphore here is its counters. Whoever shares one between threads
//! makes each call atomic, blocks a thread while no permit is free, and
//! performs the wake-up that `release` answers.
use vstd::prelude::*;

use crate::error::HioLastError;
use crate::futex_semaphore::FutexSemaphore;

verus! {

/// The most permits a semaphore may hold.
pub const MAX_PERMITS: u32 = 0x7fff_ffffu32;

/// Which kind of semaphore `create_semaphore` builds.
#[derive(Debug, Clone, Copy, PartialEq, Eq, Structural)]
pub enum SemaphoreType {
    FutexSem,
    CondvarSem,
}

/// Which waiters a release asks to wake.
#[derive(Debug, Clone, Copy, PartialEq, Eq, Structural)]
pub enum WakeAction {
    /// Wake nobody.
    Nobody,
    /// Wake one waiter.
    One,
    /// Wake every waiter.
    All,
    /// Wake one waiter, this many times.
    Each(u32),
}

/// The operations of a counting semaphore. `acquire` is the step taken
/// once a permit is free, after whatever waiting that took.
pub trait Semaphore: Sized {
    /// The free permits.
    spec fn permits(&self) -> nat;

    /// The semaphore's own well-formedness.
    spec fn inv(&self) -> bool;

    /// Whether a semaphore may start with `permits`.
    spec fn make_allowed(permits: u32) -> bool;

    /// Whether `n` permits may be given back now.
    spec fn release_allowed(&self, n: u32) -> bool;

    /// The free permits after `n` are given back.
    spec fn after_release(&self, n: u32) -> nat;

    fn make(permits: u32) -> (s: Self)
        requires
            Self::make_allowed(permits),
        ensures
            s.inv(),
            s.permits() == permits,
    ;

    /// Takes a free permit.
    fn acquire(&mut self)
        requires
            old(self).inv(),
            old(self).permits() > 0,
        ensures
            final(self).inv(),
            final(self).permits() == old(self).permits() - 1,
    ;

    /// Takes a permit if one is free, and fails with `Failed` if none is.
    fn try_acquire(&mut self) -> (r: Result<(), HioLastError>)
        requires
            old(self).inv(),
        ensures
            final(self).inv(),
            r is Ok <==> old(self).permits() > 0,
            r is Ok ==> final(self).permits() == old(self).permits() - 1,
            r is Err ==> r == Err::<(), HioLastError>(HioLastError::Failed) && final(self).permits()
                == old(self).permits(),
    ;

    /// Gives back `n` permits and answers whom to wake.
    fn release(&mut self, n: u32) -> (w: WakeAction)
        requires
            old(self).inv(),
            old(self).release_allowed(n),
        ensures
            final(self).inv(),
            final(self).permits() == old(self).after_release(n),
    ;

    fn available_permits(&self) -> (p: u32)
        requires
            self.inv(),
        ensures
            p == self.permits(),
    ;
}

/// A request for no permits gets one.
pub open spec fn effective_permits(permits: u32) -> u32 {
    if permits == 0 {
        1
    } else {
        permits
    }
}

pub fn ensure_permits(permits: u32) -> (p: u32)
    ensures
        p == effective_permits(permits),
        p > 0,
{
    if permits == 0 {
        1
    } else {
        permits
    }
}

/// Builds a semaphore of the kind asked for, holding `permits`; only the
/// futex kind exists.
pub fn create_semaphore(sem_type: SemaphoreType, permits: u32) -> (s: FutexSemaphore)
    requires
        sem_type == SemaphoreType::FutexSem,
        permits <= MAX_PERMITS,
    ensures
        s.inv(),
        s.permits() == permits,
        s.waiters() == 0,
{
    FutexSemaphore::new(permits)
}

} // verus!
