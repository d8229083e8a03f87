//! A counting semaphore whose waiters sleep on a condition variable.
use vstd::prelude::*;

use crate::error::HioLastError;
use crate::futex::FutexWord;
use crate::semaphore::{Semaphore, WakeAction};

verus! {

/// The outcome of one round of a blocked acquire.
#[derive(Debug, Clone, Copy, PartialEq, Eq, Structural)]
pub enum CondvarStep {
    /// A permit was taken.
    Acquired,
    /// The deadline passed with no permit taken.
    TimedOut,
    /// Permits showed up in between: release the lock, spin or yield, and
    /// try again.
    Spin,
    /// No permit is free: sleep on the condition variable, then try again.
    Wait,
}

/// The permits after `n` more are given back: more than `u32::MAX` are
/// never counted.
pub open spec fn saturated_release(permits: u32, n: u32) -> u32 {
    if permits + n > u32::MAX {
        u32::MAX
    } else {
        (permits + n) as u32
    }
}

/// A semaphore whose blocked threads sleep on a condition variable.
pub struct CondvarSemaphore {
    permits: FutexWord,
    waiters: u32,
}

impl CondvarSemaphore {
    /// Threads blocked in `acquire`.
    pub closed spec fn waiters(&self) -> u32 {
        self.waiters
    }

    pub fn new(permits: u32) -> (s: Self)
        ensures
            s.inv(),
            s.permits() == permits,
            s.waiters() == 0,
    {
        CondvarSemaphore { permits: FutexWord::new(permits), waiters: 0 }
    }

    /// Takes a permit if one is free.
    pub fn try_get_permit(&mut self) -> (taken: bool)
        ensures
            final(self).inv(),
            taken == (old(self).permits() > 0),
            taken ==> final(self).permits() == old(self).permits() - 1,
            !taken ==> final(self).permits() == old(self).permits(),
            final(self).waiters() == old(self).waiters(),
    {
        let mut current = self.permits.load();
        loop
            invariant
                current == self.permits@,
                self.permits@ == old(self).permits@,
                self.waiters == old(self).waiters,
            decreases current,
        {
            if current == 0 {
                return false;
            }
            match self.permits.compare_exchange_weak(current, current - 1) {
                Ok(_) => {
                    return true;
                },
                Err(n) => {
                    current = n;
                },
            }
        }
    }

    /// A thread starts to block in `acquire`.
    pub fn enter_waiter(&mut self)
        ensures
            final(self).inv(),
            final(self).permits() == old(self).permits(),
            final(self).waiters() == old(self).waiters().wrapping_add(1),
    {
        self.waiters = self.waiters.wrapping_add(1);
    }

    /// A thread stops blocking in `acquire`.
    pub fn leave_waiter(&mut self)
        ensures
            final(self).inv(),
            final(self).permits() == old(self).permits(),
            final(self).waiters() == old(self).waiters().wrapping_sub(1),
    {
        self.waiters = self.waiters.wrapping_sub(1);
    }

    /// One round of a blocked acquire, told whether its deadline has
    /// passed: a free permit is taken first, then a passed deadline ends
    /// the wait.
    pub fn acquire_slow(&mut self, deadline_passed: bool) -> (step: CondvarStep)
        ensures
            final(self).inv(),
            final(self).waiters() == old(self).waiters(),
            old(self).permits() > 0 ==> step == CondvarStep::Acquired && final(self).permits()
                == old(self).permits() - 1,
            old(self).permits() == 0 ==> final(self).permits() == old(self).permits() && step == (
            if deadline_passed {
                CondvarStep::TimedOut
            } else {
                CondvarStep::Wait
            }),
    {
        if self.try_get_permit() {
            return CondvarStep::Acquired;
        }
        if deadline_passed {
            return CondvarStep::TimedOut;
        }
        if self.permits.load() != 0 {
            CondvarStep::Spin
        } else {
            CondvarStep::Wait
        }
    }
}

impl Semaphore for CondvarSemaphore {
    closed spec fn permits(&self) -> nat {
        self.permits@ as nat
    }

    closed spec fn inv(&self) -> bool {
        true
    }

    open spec fn make_allowed(permits: u32) -> bool {
        true
    }

    open spec fn release_allowed(&self, n: u32) -> bool {
        true
    }

    open spec fn after_release(&self, n: u32) -> nat {
        if self.permits() + n > u32::MAX {
            u32::MAX as nat
        } else {
            self.permits() + n as nat
        }
    }

    fn make(permits: u32) -> (s: Self) {
        Self::new(permits)
    }

    fn acquire(&mut self)
        ensures
            final(self).waiters() == old(self).waiters(),
    {
        let taken = self.try_get_permit();
        assert(taken);
    }

    fn try_acquire(&mut self) -> (r: Result<(), HioLastError>)
        ensures
            final(self).waiters() == old(self).waiters(),
    {
        if self.try_get_permit() {
            Ok(())
        } else {
            Err(HioLastError::Failed)
        }
    }

    fn release(&mut self, n: u32) -> (w: WakeAction)
        ensures
            final(self).waiters() == old(self).waiters(),
            n == 0 ==> w == WakeAction::Nobody && final(self).permits() == old(self).permits(),
            n > 0 && old(self).waiters() == 0 ==> w == WakeAction::Nobody,
            n == 1 && old(self).waiters() > 0 ==> w == WakeAction::One,
            n > 1 && old(self).waiters() > 0 ==> w == WakeAction::All,
    {
        if n == 0 {
            return WakeAction::Nobody;
        }
        let mut current = self.permits.load();
        loop
            invariant_except_break
                current == self.permits@,
                self.permits@ == old(self).permits@,
            invariant
                self.waiters == old(self).waiters,
            ensures
                self.permits@ == saturated_release(old(self).permits@, n),
            decreases current,
        {
            let next = current.saturating_add(n);
            match self.permits.compare_exchange_weak(current, next) {
                Ok(_) => {
                    break;
                },
                Err(a) => {
                    current = a;
                },
            }
        }
        if self.waiters == 0 {
            return WakeAction::Nobody;
        }
        if n == 1 {
            WakeAction::One
        } else {
            WakeAction::All
        }
    }

    fn available_permits(&self) -> (p: u32) {
        self.permits.load()
    }
}

/// Giving back permits never loses any that were free, adds all of them
/// unless the count would pass `u32::MAX`, and so a permit given back can
/// be taken at once.
pub proof fn lemma_condvar_release_saturates(s: CondvarSemaphore, n: u32)
    ensures
        s.after_release(n) >= s.permits(),
        s.permits() + n <= u32::MAX ==> s.after_release(n) == s.permits() + n,
        s.permits() + n > u32::MAX ==> s.after_release(n) == u32::MAX,
        n > 0 ==> s.after_release(n) > 0,
{
}

} // verus!
