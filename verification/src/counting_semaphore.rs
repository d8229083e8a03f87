//! A counting semaphore whose blocked threads sleep on a condition
//! variable and are woken on every release.
use vstd::prelude::*;

use crate::error::HioLastError;
use crate::futex::FutexWord;
use crate::semaphore::WakeAction;

verus! {

/// A counting semaphore.
pub struct Semaphore {
    count: FutexWord,
}

impl Semaphore {
    /// The free permits.
    pub closed spec fn permits(&self) -> u32 {
        self.count@
    }

    pub fn new(permits: u32) -> (s: Self)
        ensures
            s.permits() == permits,
    {
        Semaphore { count: FutexWord::new(permits) }
    }

    /// Takes a free permit, once one is free.
    pub fn acquire(&mut self) -> (r: Result<(), HioLastError>)
        requires
            old(self).permits() > 0,
        ensures
            r == Ok::<(), HioLastError>(()),
            final(self).permits() == old(self).permits() - 1,
    {
        let taken = self.try_get_permit();
        assert(taken);
        Ok(())
    }

    /// Takes a permit if one is free; with none free it fails with
    /// `ResourceUnavailable`.
    pub fn try_acquire(&mut self) -> (r: Result<(), HioLastError>)
        ensures
            old(self).permits() == 0 ==> r == Err::<(), HioLastError>(
                HioLastError::ResourceUnavailable,
            ) && final(self).permits() == 0,
            old(self).permits() > 0 ==> r == Ok::<(), HioLastError>(()) && final(self).permits()
                == old(self).permits() - 1,
    {
        let current = self.count.load();
        if current == 0 {
            return Err(HioLastError::ResourceUnavailable);
        }
        if self.count.compare_exchange_weak(current, current - 1).is_ok() {
            Ok(())
        } else {
            Err(HioLastError::Failed)
        }
    }

    /// Gives back `n` permits, wrapping around past `u32::MAX`, and answers
    /// whom to wake: one waiter for one permit, all for more. Giving back
    /// none is refused.
    pub fn release(&mut self, n: u32) -> (r: Result<WakeAction, HioLastError>)
        ensures
            n == 0 ==> r == Err::<WakeAction, HioLastError>(HioLastError::InvalidParam)
                && final(self).permits() == old(self).permits(),
            n == 1 ==> r == Ok::<WakeAction, HioLastError>(WakeAction::One) && final(self).permits()
                == old(self).permits().wrapping_add(n),
            n > 1 ==> r == Ok::<WakeAction, HioLastError>(WakeAction::All) && final(self).permits()
                == old(self).permits().wrapping_add(n),
    {
        if n == 0 {
            return Err(HioLastError::InvalidParam);
        }
        self.count.fetch_add(n);
        if n == 1 {
            Ok(WakeAction::One)
        } else {
            Ok(WakeAction::All)
        }
    }

    /// Takes a permit if one is free.
    pub fn try_get_permit(&mut self) -> (taken: bool)
        ensures
            taken == (old(self).permits() > 0),
            taken ==> final(self).permits() == old(self).permits() - 1,
            !taken ==> final(self).permits() == old(self).permits(),
    {
        let mut current = self.count.load();
        while current > 0
            invariant
                current == self.count@,
                self.count@ == old(self).count@,
            decreases current,
        {
            match self.count.compare_exchange_weak(current, current - 1) {
                Ok(_) => {
                    return true;
                },
                Err(a) => {
                    current = a;
                },
            }
        }
        false
    }
}

} // verus!
