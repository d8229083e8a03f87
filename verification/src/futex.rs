//! The 32-bit word that a futex waits on, as the value it holds.
//!
//! Each operation is the read-modify-write that the word performs
//! atomically. Waiting on the word and waking its waiters are done by the
//! operating system and stand outside this library.
use vstd::prelude::*;

verus! {

/// A 32-bit word with the atomic operations of a futex word.
#[derive(Debug)]
pub struct FutexWord {
    word: u32,
}

impl View for FutexWord {
    type V = u32;

    closed spec fn view(&self) -> u32 {
        self.word
    }
}

impl FutexWord {
    pub fn new(n: u32) -> (w: Self)
        ensures
            w@ == n,
    {
        FutexWord { word: n }
    }

    pub fn load(&self) -> (v: u32)
        ensures
            v == self@,
    {
        self.word
    }

    /// Adds `val`, wrapping around on overflow; returns the value before.
    pub fn fetch_add(&mut self, val: u32) -> (prev: u32)
        ensures
            prev == old(self)@,
            final(self)@ == old(self)@.wrapping_add(val),
    {
        let prev = self.word;
        self.word = self.word.wrapping_add(val);
        prev
    }

    /// Subtracts `val`, wrapping around on underflow; returns the value
    /// before.
    pub fn fetch_sub(&mut self, val: u32) -> (prev: u32)
        ensures
            prev == old(self)@,
            final(self)@ == old(self)@.wrapping_sub(val),
    {
        let prev = self.word;
        self.word = self.word.wrapping_sub(val);
        prev
    }

    /// Stores `new` if the word holds `curr`; returns the value found,
    /// as `Ok` when it was stored and as `Err` when not.
    pub fn compare_exchange(&mut self, curr: u32, new: u32) -> (r: Result<u32, u32>)
        ensures
            old(self)@ == curr ==> r == Ok::<u32, u32>(curr) && final(self)@ == new,
            old(self)@ != curr ==> r == Err::<u32, u32>(old(self)@) && final(self)@ == old(self)@,
    {
        if self.word == curr {
            self.word = new;
            Ok(curr)
        } else {
            Err(self.word)
        }
    }

    /// As `compare_exchange`. A word that only one owner changes never
    /// fails spuriously, so this form stores exactly when the other does.
    pub fn compare_exchange_weak(&mut self, curr: u32, new: u32) -> (r: Result<u32, u32>)
        ensures
            old(self)@ == curr ==> r == Ok::<u32, u32>(curr) && final(self)@ == new,
            old(self)@ != curr ==> r == Err::<u32, u32>(old(self)@) && final(self)@ == old(self)@,
    {
        self.compare_exchange(curr, new)
    }
}


/// The longest finite wait, in milliseconds, that a Windows address wait
/// accepts; one more means no time limit.
pub const MAX_WAIT_MILLIS: u32 = 0xffff_fffeu32;

/// A timeout in nanoseconds, rounded up to whole milliseconds.
pub open spec fn millis_ceil(nanos: u128) -> int {
    nanos / 1_000_000 + if nanos % 1_000_000 > 0 {
        1int
    } else {
        0int
    }
}

/// The milliseconds that a timed wait asks the Windows address wait for: the
/// timeout rounded up, at least one, and never the value that means no
/// limit.
pub open spec fn wait_millis_spec(nanos: u128) -> u32 {
    let ms = millis_ceil(nanos);
    if ms < 1 {
        1
    } else if ms > MAX_WAIT_MILLIS {
        MAX_WAIT_MILLIS
    } else {
        ms as u32
    }
}

pub fn wait_millis(nanos: u128) -> (ms: u32)
    ensures
        ms == wait_millis_spec(nanos),
        1 <= ms <= MAX_WAIT_MILLIS,
{
    let q = nanos / 1_000_000;
    let ms = if nanos % 1_000_000 > 0 {
        q + 1
    } else {
        q
    };
    if ms < 1 {
        1
    } else if ms > 0xffff_fffe {
        MAX_WAIT_MILLIS
    } else {
        ms as u32
    }
}

} // verus!
