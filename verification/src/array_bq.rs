//! A blocking queue kept in one ring buffer under one lock.
use std::collections::VecDeque;

use vstd::prelude::*;

use crate::bq::{
    ensure_capacity, no_signals, BQ, CondWaiters, QueueModel, Signals,
};
use crate::error::HioLastError;

verus! {

broadcast use vstd::std_specs::vecdeque::group_vec_dequeue_axioms;

/// A bounded FIFO queue over a ring buffer.
pub struct ArrayBQ<T> {
    capacity: usize,
    disposed: bool,
    push_waiters: CondWaiters,
    pop_waiters: CondWaiters,
    buf: VecDeque<T>,
    signals: Signals,
    drain_wakes: bool,
}

impl<T> ArrayBQ<T> {
    /// An empty queue; a capacity of zero means no bound.
    pub fn new(capacity: usize) -> (q: Self)
        ensures
            q.inv(),
            q.model() == QueueModel::<T>::fresh(capacity),
            q.last_signals() == no_signals(),
            !q.last_drain_wakes(),
    {
        let capacity = ensure_capacity(capacity);
        // The buffer grows with its items instead of reserving the whole
        // capacity up front, so that no capacity can make this call fail.
        let buf = VecDeque::new();
        ArrayBQ {
            capacity,
            disposed: false,
            push_waiters: CondWaiters::new(),
            pop_waiters: CondWaiters::new(),
            buf,
            signals: Signals::none(),
            drain_wakes: false,
        }
    }

    /// Whether the buffer holds as many items as the queue allows.
    fn is_full(&self) -> (b: bool)
        requires
            self.inv(),
        ensures
            b == self.model().is_full(),
    {
        self.buf.len() >= self.capacity
    }

    /// Appends an item to a queue with room, and records what to signal.
    fn en_q_commit(&mut self, item: T)
        requires
            old(self).inv(),
            !old(self).model().is_full(),
        ensures
            final(self).inv(),
            final(self).model() == old(self).model().enqueued(item),
            final(self).last_signals() == old(self).model().push_signals(),
            final(self).drain_wakes == old(self).drain_wakes,
    {
        let prev = self.buf.len();
        self.buf.push_back(item);
        self.signals = Signals {
            signal_not_empty: prev == 0 && self.pop_waiters.any(),
            signal_not_full: prev + 1 < self.capacity && self.push_waiters.any(),
        };
    }

    /// Takes the oldest item of a non-empty queue, and records what to
    /// signal.
    fn de_q_commit(&mut self) -> (item: T)
        requires
            old(self).inv(),
            old(self).model().items.len() > 0,
        ensures
            final(self).inv(),
            item == old(self).model().items[0],
            final(self).model() == old(self).model().dequeued(),
            final(self).last_signals() == old(self).model().pop_signals(),
            final(self).drain_wakes == old(self).drain_wakes,
    {
        let prev = self.buf.len();
        let item = self.buf.pop_front().unwrap();
        self.signals = Signals {
            signal_not_empty: prev > 1 && self.pop_waiters.any(),
            signal_not_full: prev == self.capacity && self.push_waiters.any(),
        };
        item
    }
}

impl<T> BQ<T> for ArrayBQ<T> {
    closed spec fn model(&self) -> QueueModel<T> {
        QueueModel {
            items: self.buf@,
            capacity: self.capacity as nat,
            disposed: self.disposed,
            push_waiters: self.push_waiters@,
            pop_waiters: self.pop_waiters@,
        }
    }

    closed spec fn inv(&self) -> bool {
        self.model().wf()
    }

    closed spec fn last_signals(&self) -> Signals {
        self.signals
    }

    closed spec fn last_drain_wakes(&self) -> bool {
        self.drain_wakes
    }

    fn push_must_wait(&self) -> (b: bool) {
        !self.disposed && self.is_full()
    }

    fn pop_must_wait(&self) -> (b: bool) {
        !self.disposed && self.buf.len() == 0
    }

    fn enter_push_wait(&mut self) {
        self.push_waiters.enter();
    }

    fn leave_push_wait(&mut self) {
        self.push_waiters.leave();
    }

    fn enter_pop_wait(&mut self) {
        self.pop_waiters.enter();
    }

    fn leave_pop_wait(&mut self) {
        self.pop_waiters.leave();
    }

    fn push(&mut self, item: T) -> (r: Result<(), (HioLastError, T)>) {
        if self.disposed {
            self.signals = Signals::none();
            return Err((HioLastError::ResourceUnavailable, item));
        }
        self.en_q_commit(item);
        Ok(())
    }

    fn try_push(&mut self, item: T) -> (r: Result<(), (HioLastError, T)>) {
        if self.disposed {
            self.signals = Signals::none();
            return Err((HioLastError::ResourceUnavailable, item));
        }
        if self.is_full() {
            self.signals = Signals::none();
            return Err((HioLastError::WouldBlock, item));
        }
        self.en_q_commit(item);
        Ok(())
    }

    fn push_timeout(&mut self, item: T, timed_out: bool) -> (r: Result<(), (HioLastError, T)>) {
        if timed_out {
            self.signals = Signals::none();
            return Err((HioLastError::Timeout, item));
        }
        if self.disposed {
            self.signals = Signals::none();
            return Err((HioLastError::ResourceUnavailable, item));
        }
        self.en_q_commit(item);
        Ok(())
    }

    fn pop(&mut self) -> (r: Result<T, HioLastError>) {
        if self.buf.len() == 0 {
            self.signals = Signals::none();
            return Err(HioLastError::ResourceUnavailable);
        }
        let item = self.de_q_commit();
        Ok(item)
    }

    fn try_pop(&mut self) -> (r: Result<T, HioLastError>) {
        if self.buf.len() == 0 {
            self.signals = Signals::none();
            let err = if self.disposed {
                HioLastError::ResourceUnavailable
            } else {
                HioLastError::WouldBlock
            };
            return Err(err);
        }
        let item = self.de_q_commit();
        Ok(item)
    }

    fn pop_timeout(&mut self, timed_out: bool) -> (r: Result<T, HioLastError>) {
        if timed_out {
            self.signals = Signals::none();
            return Err(HioLastError::Timeout);
        }
        if self.disposed && self.buf.len() == 0 {
            self.signals = Signals::none();
            return Err(HioLastError::ResourceUnavailable);
        }
        let item = self.de_q_commit();
        Ok(item)
    }

    fn drain(&mut self) -> (v: Vec<T>) {
        let ghost start = self.buf@;
        let had = self.buf.len();
        let mut items: Vec<T> = Vec::new();
        while self.buf.len() > 0
            invariant
                items@ + self.buf@ == start,
                self.inv(),
                self.capacity == old(self).capacity,
                self.disposed == old(self).disposed,
                self.push_waiters@ == old(self).push_waiters@,
                self.pop_waiters@ == old(self).pop_waiters@,
                self.signals == old(self).signals,
            decreases self.buf@.len(),
        {
            let x = self.buf.pop_front().unwrap();
            items.push(x);
            proof {
                assert(items@ + self.buf@ =~= start);
            }
        }
        assert(items@ =~= start);
        assert(self.buf@ =~= Seq::<T>::empty());
        self.drain_wakes = had > 0 && self.push_waiters.any();
        items
    }

    fn dispose(&mut self) -> (first: bool) {
        if self.disposed {
            false
        } else {
            self.disposed = true;
            true
        }
    }

    fn size(&self) -> (n: usize) {
        self.buf.len()
    }

    fn capacity(&self) -> (c: usize) {
        self.capacity
    }

    fn is_disposed(&self) -> (b: bool) {
        self.disposed
    }

    fn signals(&self) -> (s: Signals) {
        self.signals
    }

    fn drain_wakes_producers(&self) -> (b: bool) {
        self.drain_wakes
    }
}

} // verus!
