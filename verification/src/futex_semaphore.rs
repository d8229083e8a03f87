//! A counting semaphore whose free permits live in a futex word, the way
//! a C++20 `counting_semaphore` keeps them.
use vstd::prelude::*;

use crate::error::HioLastError;
use crate::futex::FutexWord;
use crate::semaphore::{Semaphore, WakeAction, MAX_PERMITS};

verus! {

/// The outcome of one round of a blocked acquire.
#[derive(Debug, Clone, Copy, PartialEq, Eq, Structural)]
pub enum SlowStep {
    /// A permit was taken; the thread no longer waits.
    Acquired,
    /// No permit is free: sleep on the word while it reads zero, then try
    /// again.
    Wait,
    /// Permits showed up in between: try again at once.
    Retry,
}

/// Whom a release of `n` permits wakes when `waiting` threads wait: all of
/// them when the permits cover them, else one per permit.
pub open spec fn wake_plan(n: u32, waiting: u32) -> WakeAction {
    if waiting <= n {
        WakeAction::All
    } else {
        WakeAction::Each(n)
    }
}

/// A semaphore whose permits sit in a futex word.
#[derive(Debug)]
pub struct FutexSemaphore {
    permits: FutexWord,
    waiters: u32,
}

impl FutexSemaphore {
    /// Threads in the slow path of `acquire`.
    pub closed spec fn waiters(&self) -> u32 {
        self.waiters
    }

    /// A semaphore holding `permits`, which may not exceed `MAX_PERMITS`.
    pub fn new(permits: u32) -> (s: Self)
        requires
            permits <= MAX_PERMITS,
        ensures
            s.inv(),
            s.permits() == permits,
            s.waiters() == 0,
    {
        FutexSemaphore { permits: FutexWord::new(permits), waiters: 0 }
    }

    /// Takes a permit if one is free.
    fn try_decrement(&mut self) -> (taken: bool)
        requires
            old(self).inv(),
        ensures
            final(self).inv(),
            taken == (old(self).permits() > 0),
            taken ==> final(self).permits() == old(self).permits() - 1,
            !taken ==> final(self).permits() == old(self).permits(),
            final(self).waiters() == old(self).waiters(),
    {
        let mut cur = self.permits.load();
        while cur > 0
            invariant
                cur == self.permits@,
                cur <= MAX_PERMITS,
                self.permits@ == old(self).permits@,
                self.waiters == old(self).waiters,
            decreases cur,
        {
            match self.permits.compare_exchange_weak(cur, cur - 1) {
                Ok(_) => {
                    return true;
                },
                Err(n) => {
                    cur = n;
                },
            }
        }
        false
    }

    /// A thread enters the slow path of `acquire`.
    pub fn acquire_slow_enter(&mut self)
        requires
            old(self).inv(),
        ensures
            final(self).inv(),
            final(self).permits() == old(self).permits(),
            final(self).waiters() == old(self).waiters().wrapping_add(1),
    {
        self.waiters = self.waiters.wrapping_add(1);
    }

    /// One round of the slow path: take a permit and leave, or say to
    /// sleep while the word reads zero.
    pub fn acquire_slow(&mut self) -> (step: SlowStep)
        requires
            old(self).inv(),
        ensures
            final(self).inv(),
            step == SlowStep::Acquired <==> old(self).permits() > 0,
            step == SlowStep::Acquired ==> {
                &&& final(self).permits() == old(self).permits() - 1
                &&& final(self).waiters() == old(self).waiters().wrapping_sub(1)
            },
            step != SlowStep::Acquired ==> {
                &&& step == SlowStep::Wait
                &&& final(self).permits() == old(self).permits()
                &&& final(self).waiters() == old(self).waiters()
            },
    {
        if self.try_decrement() {
            self.waiters = self.waiters.wrapping_sub(1);
            return SlowStep::Acquired;
        }
        if self.permits.load() == 0 {
            SlowStep::Wait
        } else {
            SlowStep::Retry
        }
    }

    /// Whom a release of `n` permits wakes when `waiting` threads wait.
    pub fn wake_waiters(n: u32, waiting: u32) -> (w: WakeAction)
        ensures
            w == wake_plan(n, waiting),
            waiting <= n ==> w == WakeAction::All,
            waiting > n ==> w == WakeAction::Each(n),
    {
        if waiting <= n {
            WakeAction::All
        } else {
            WakeAction::Each(n)
        }
    }
}

impl Semaphore for FutexSemaphore {
    closed spec fn permits(&self) -> nat {
        self.permits@ as nat
    }

    closed spec fn inv(&self) -> bool {
        self.permits@ <= MAX_PERMITS
    }

    open spec fn make_allowed(permits: u32) -> bool {
        permits <= MAX_PERMITS
    }

    /// More permits than `MAX_PERMITS` may never be free.
    open spec fn release_allowed(&self, n: u32) -> bool {
        n == 0 || self.permits() + n <= MAX_PERMITS
    }

    open spec fn after_release(&self, n: u32) -> nat {
        self.permits() + n as nat
    }

    fn make(permits: u32) -> (s: Self) {
        Self::new(permits)
    }

    fn acquire(&mut self)
        ensures
            final(self).waiters() == old(self).waiters(),
    {
        let taken = self.try_decrement();
        assert(taken);
    }

    fn try_acquire(&mut self) -> (r: Result<(), HioLastError>)
        ensures
            final(self).waiters() == old(self).waiters(),
    {
        let cur = self.permits.load();
        if cur > 0 && self.permits.compare_exchange(cur, cur - 1).is_ok() {
            Ok(())
        } else {
            Err(HioLastError::Failed)
        }
    }

    fn release(&mut self, n: u32) -> (w: WakeAction)
        ensures
            final(self).waiters() == old(self).waiters(),
            n == 0 ==> w == WakeAction::Nobody,
            n > 0 && old(self).waiters() == 0 ==> w == WakeAction::Nobody,
            n > 0 && old(self).waiters() > 0 ==> w == wake_plan(n, old(self).waiters()),
    {
        if n == 0 {
            return WakeAction::Nobody;
        }
        let _prev = self.permits.fetch_add(n);
        let waiting = self.waiters;
        if waiting != 0 {
            Self::wake_waiters(n, waiting)
        } else {
            WakeAction::Nobody
        }
    }

    fn available_permits(&self) -> (p: u32) {
        self.permits.load()
    }
}

/// Giving back permits adds exactly them and keeps the bound of
/// `MAX_PERMITS`, so a permit given back can be taken at once.
pub proof fn lemma_futex_release_adds(s: FutexSemaphore, n: u32)
    requires
        s.inv(),
        s.release_allowed(n),
    ensures
        s.after_release(n) == s.permits() + n,
        s.after_release(n) <= MAX_PERMITS,
        n > 0 ==> s.after_release(n) > 0,
{
}


/// How many of `waiting` blocked threads a wake action rouses.
pub open spec fn threads_woken(a: WakeAction, waiting: nat) -> nat {
    match a {
        WakeAction::Nobody => 0,
        WakeAction::One => if waiting >= 1 {
            1
        } else {
            0
        },
        WakeAction::All => waiting,
        WakeAction::Each(k) => if k <= waiting {
            k as nat
        } else {
            waiting
        },
    }
}

/// A release of `n` permits rouses as many blocked threads as can take a
/// permit: every waiter when the permits cover them, else one per permit,
/// and never more than that.
pub proof fn lemma_release_wakes_one_per_permit(n: u32, waiting: u32)
    ensures
        threads_woken(wake_plan(n, waiting), waiting as nat) == if waiting <= n {
            waiting as nat
        } else {
            n as nat
        },
{
}

} // verus!
