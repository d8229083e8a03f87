//! Blocking queues: the model that both queues refine, the interface they
//! share, and the factory that builds one of them.
//!
//! A queue here is the state that its lock guards. Whoever drives a queue
//! from several threads holds that lock around each call, waits on a
//! condition while `push_must_wait` or `pop_must_wait` holds, and after a
//! call wakes the waiters that `signals` or `drain_wakes_producers` names.
use vstd::prelude::*;

use crate::array_bq::ArrayBQ;
use crate::error::HioLastError;
use crate::linked_bq::LinkedBQ;

verus! {

/// Which kind of blocking queue `create_bq` builds.
#[derive(Debug, Clone, Copy, PartialEq, Eq, Structural)]
pub enum BQType {
    Array,
    Linked,
    LockFree,
}

/// A capacity of zero asks for a queue without bound.
pub open spec fn effective_capacity(capacity: usize) -> usize {
    if capacity == 0 {
        usize::MAX
    } else {
        capacity
    }
}

/// The capacity that a queue asked for with `capacity` gets.
pub fn ensure_capacity(capacity: usize) -> (c: usize)
    ensures
        c == effective_capacity(capacity),
        c > 0,
{
    if capacity == 0 {
        usize::MAX
    } else {
        capacity
    }
}

/// A value kept apart from its neighbours in memory.
pub struct CachePadded<T>(T);

impl<T> CachePadded<T> {
    /// The value held.
    pub closed spec fn value(&self) -> T {
        self.0
    }

    pub fn new(t: T) -> (p: Self)
        ensures
            p.value() == t,
    {
        CachePadded(t)
    }

    /// A reference to the value held.
    pub fn get(&self) -> (r: &T)
        ensures
            *r == self.value(),
    {
        &self.0
    }
}

/// The number of threads that wait on one condition of a queue.
pub struct CondWaiters(usize);

impl View for CondWaiters {
    type V = nat;

    closed spec fn view(&self) -> nat {
        self.0 as nat
    }
}

impl CondWaiters {
    pub fn new() -> (w: Self)
        ensures
            w@ == 0,
    {
        CondWaiters(0)
    }

    /// A thread starts to wait.
    pub fn enter(&mut self)
        requires
            old(self)@ < usize::MAX,
        ensures
            final(self)@ == old(self)@ + 1,
    {
        self.0 = self.0 + 1;
    }

    /// A thread that waited stops waiting.
    pub fn leave(&mut self)
        requires
            old(self)@ > 0,
        ensures
            final(self)@ == old(self)@ - 1,
    {
        self.0 = self.0 - 1;
    }

    /// Whether any thread waits.
    pub fn any(&self) -> (b: bool)
        ensures
            b == (self@ > 0),
    {
        self.0 > 0
    }

    /// How many threads wait.
    pub fn count(&self) -> (n: usize)
        ensures
            n == self@,
    {
        self.0
    }
}

/// Which conditions a call asks to signal, each to one waiter.
#[derive(Debug, Clone, Copy, PartialEq, Eq, Structural)]
pub struct Signals {
    pub signal_not_empty: bool,
    pub signal_not_full: bool,
}

/// No condition to signal.
pub open spec fn no_signals() -> Signals {
    Signals { signal_not_empty: false, signal_not_full: false }
}

impl Signals {
    pub fn none() -> (s: Signals)
        ensures
            s == no_signals(),
    {
        Signals { signal_not_empty: false, signal_not_full: false }
    }
}

/// What a blocking queue holds and knows, as mathematics.
pub struct QueueModel<T> {
    /// The items, oldest first.
    pub items: Seq<T>,
    pub capacity: nat,
    pub disposed: bool,
    /// Threads waiting for room.
    pub push_waiters: nat,
    /// Threads waiting for an item.
    pub pop_waiters: nat,
}

impl<T> QueueModel<T> {
    /// A fresh queue asked for with `capacity`.
    pub open spec fn fresh(capacity: usize) -> Self {
        QueueModel {
            items: Seq::empty(),
            capacity: effective_capacity(capacity) as nat,
            disposed: false,
            push_waiters: 0,
            pop_waiters: 0,
        }
    }

    /// What every queue keeps: a bound of at least one, never exceeded.
    pub open spec fn wf(self) -> bool {
        &&& self.capacity > 0
        &&& self.capacity <= usize::MAX
        &&& self.items.len() <= self.capacity
        &&& self.push_waiters <= usize::MAX
        &&& self.pop_waiters <= usize::MAX
    }

    pub open spec fn is_full(self) -> bool {
        self.items.len() >= self.capacity
    }

    /// A blocking push waits while this holds.
    pub open spec fn push_must_wait(self) -> bool {
        !self.disposed && self.is_full()
    }

    /// A blocking pop waits while this holds.
    pub open spec fn pop_must_wait(self) -> bool {
        !self.disposed && self.items.len() == 0
    }

    pub open spec fn with_items(self, items: Seq<T>) -> Self {
        QueueModel {
            items,
            capacity: self.capacity,
            disposed: self.disposed,
            push_waiters: self.push_waiters,
            pop_waiters: self.pop_waiters,
        }
    }

    pub open spec fn enqueued(self, item: T) -> Self {
        self.with_items(self.items.push(item))
    }

    pub open spec fn dequeued(self) -> Self {
        self.with_items(self.items.drop_first())
    }

    pub open spec fn with_push_waiters(self, n: nat) -> Self {
        QueueModel {
            items: self.items,
            capacity: self.capacity,
            disposed: self.disposed,
            push_waiters: n,
            pop_waiters: self.pop_waiters,
        }
    }

    pub open spec fn with_pop_waiters(self, n: nat) -> Self {
        QueueModel {
            items: self.items,
            capacity: self.capacity,
            disposed: self.disposed,
            push_waiters: self.push_waiters,
            pop_waiters: n,
        }
    }

    pub open spec fn as_disposed(self) -> Self {
        QueueModel {
            items: self.items,
            capacity: self.capacity,
            disposed: true,
            push_waiters: self.push_waiters,
            pop_waiters: self.pop_waiters,
        }
    }

    /// What an enqueue into this state signals: a consumer when the queue
    /// was empty, the next producer when room is left.
    pub open spec fn push_signals(self) -> Signals {
        Signals {
            signal_not_empty: self.items.len() == 0 && self.pop_waiters > 0,
            signal_not_full: self.items.len() + 1 < self.capacity && self.push_waiters > 0,
        }
    }

    /// What a dequeue from this state signals: the next consumer when items
    /// are left, a producer when the queue was full.
    pub open spec fn pop_signals(self) -> Signals {
        Signals {
            signal_not_empty: self.items.len() > 1 && self.pop_waiters > 0,
            signal_not_full: self.items.len() == self.capacity && self.push_waiters > 0,
        }
    }

    /// Whether draining this state wakes every waiting producer.
    pub open spec fn drain_wakes(self) -> bool {
        self.items.len() > 0 && self.push_waiters > 0
    }
}

/// The operations of a blocking queue, each as it runs under the queue's
/// lock. The blocking forms (`push`, `pop`) are the step taken once the
/// caller has waited until the matching `*_must_wait` no longer holds; the
/// timed forms are told whether the wait timed out.
pub trait BQ<T>: Sized {
    /// The queue as mathematics.
    spec fn model(&self) -> QueueModel<T>;

    /// The queue's own well-formedness.
    spec fn inv(&self) -> bool;

    /// The conditions that the last enqueue or dequeue asked to signal.
    spec fn last_signals(&self) -> Signals;

    /// Whether the last drain asked to wake every waiting producer.
    spec fn last_drain_wakes(&self) -> bool;

    fn push_must_wait(&self) -> (b: bool)
        requires
            self.inv(),
        ensures
            b == self.model().push_must_wait(),
    ;

    fn pop_must_wait(&self) -> (b: bool)
        requires
            self.inv(),
        ensures
            b == self.model().pop_must_wait(),
    ;

    /// A producer starts to wait for room.
    fn enter_push_wait(&mut self)
        requires
            old(self).inv(),
            old(self).model().push_waiters < usize::MAX,
        ensures
            final(self).inv(),
            final(self).model() == old(self).model().with_push_waiters(
                old(self).model().push_waiters + 1,
            ),
    ;

    /// A producer stops waiting.
    fn leave_push_wait(&mut self)
        requires
            old(self).inv(),
            old(self).model().push_waiters > 0,
        ensures
            final(self).inv(),
            final(self).model() == old(self).model().with_push_waiters(
                (old(self).model().push_waiters - 1) as nat,
            ),
    ;

    /// A consumer starts to wait for an item.
    fn enter_pop_wait(&mut self)
        requires
            old(self).inv(),
            old(self).model().pop_waiters < usize::MAX,
        ensures
            final(self).inv(),
            final(self).model() == old(self).model().with_pop_waiters(
                old(self).model().pop_waiters + 1,
            ),
    ;

    /// A consumer stops waiting.
    fn leave_pop_wait(&mut self)
        requires
            old(self).inv(),
            old(self).model().pop_waiters > 0,
        ensures
            final(self).inv(),
            final(self).model() == old(self).model().with_pop_waiters(
                (old(self).model().pop_waiters - 1) as nat,
            ),
    ;

    /// Blocking push, once there is room or the queue is disposed: fails
    /// on a disposed queue and hands the item back, else enqueues it.
    fn push(&mut self, item: T) -> (r: Result<(), (HioLastError, T)>)
        requires
            old(self).inv(),
            !old(self).model().push_must_wait(),
        ensures
            final(self).inv(),
            final(self).model().wf(),
            old(self).model().disposed ==> {
                &&& r == Err::<(), (HioLastError, T)>((HioLastError::ResourceUnavailable, item))
                &&& final(self).model() == old(self).model()
                &&& final(self).last_signals() == no_signals()
            },
            !old(self).model().disposed ==> {
                &&& r == Ok::<(), (HioLastError, T)>(())
                &&& final(self).model() == old(self).model().enqueued(item)
                &&& final(self).last_signals() == old(self).model().push_signals()
            },
    ;

    /// Push without waiting: a disposed queue refuses first, a full one
    /// next; either way the item comes back.
    fn try_push(&mut self, item: T) -> (r: Result<(), (HioLastError, T)>)
        requires
            old(self).inv(),
        ensures
            final(self).inv(),
            final(self).model().wf(),
            old(self).model().disposed ==> {
                &&& r == Err::<(), (HioLastError, T)>((HioLastError::ResourceUnavailable, item))
                &&& final(self).model() == old(self).model()
                &&& final(self).last_signals() == no_signals()
            },
            !old(self).model().disposed && old(self).model().is_full() ==> {
                &&& r == Err::<(), (HioLastError, T)>((HioLastError::WouldBlock, item))
                &&& final(self).model() == old(self).model()
                &&& final(self).last_signals() == no_signals()
            },
            !old(self).model().disposed && !old(self).model().is_full() ==> {
                &&& r == Ok::<(), (HioLastError, T)>(())
                &&& final(self).model() == old(self).model().enqueued(item)
                &&& final(self).last_signals() == old(self).model().push_signals()
            },
    ;

    /// Push after a wait bounded in time: a timed-out wait fails first,
    /// then a disposed queue; either way the item comes back.
    fn push_timeout(&mut self, item: T, timed_out: bool) -> (r: Result<(), (HioLastError, T)>)
        requires
            old(self).inv(),
            timed_out || !old(self).model().push_must_wait(),
        ensures
            final(self).inv(),
            final(self).model().wf(),
            timed_out ==> {
                &&& r == Err::<(), (HioLastError, T)>((HioLastError::Timeout, item))
                &&& final(self).model() == old(self).model()
                &&& final(self).last_signals() == no_signals()
            },
            !timed_out && old(self).model().disposed ==> {
                &&& r == Err::<(), (HioLastError, T)>((HioLastError::ResourceUnavailable, item))
                &&& final(self).model() == old(self).model()
                &&& final(self).last_signals() == no_signals()
            },
            !timed_out && !old(self).model().disposed ==> {
                &&& r == Ok::<(), (HioLastError, T)>(())
                &&& final(self).model() == old(self).model().enqueued(item)
                &&& final(self).last_signals() == old(self).model().push_signals()
            },
    ;

    /// Blocking pop, once there is an item or the queue is disposed: the
    /// oldest item while any is left, even on a disposed queue.
    fn pop(&mut self) -> (r: Result<T, HioLastError>)
        requires
            old(self).inv(),
            !old(self).model().pop_must_wait(),
        ensures
            final(self).inv(),
            final(self).model().wf(),
            old(self).model().items.len() == 0 ==> {
                &&& r == Err::<T, HioLastError>(HioLastError::ResourceUnavailable)
                &&& final(self).model() == old(self).model()
                &&& final(self).last_signals() == no_signals()
            },
            old(self).model().items.len() > 0 ==> {
                &&& r == Ok::<T, HioLastError>(old(self).model().items[0])
                &&& final(self).model() == old(self).model().dequeued()
                &&& final(self).last_signals() == old(self).model().pop_signals()
            },
    ;

    /// Pop without waiting: an empty queue refuses, with
    /// `ResourceUnavailable` once disposed and `WouldBlock` before.
    fn try_pop(&mut self) -> (r: Result<T, HioLastError>)
        requires
            old(self).inv(),
        ensures
            final(self).inv(),
            final(self).model().wf(),
            old(self).model().items.len() == 0 ==> {
                &&& r == Err::<T, HioLastError>(
                    if old(self).model().disposed {
                        HioLastError::ResourceUnavailable
                    } else {
                        HioLastError::WouldBlock
                    },
                )
                &&& final(self).model() == old(self).model()
                &&& final(self).last_signals() == no_signals()
            },
            old(self).model().items.len() > 0 ==> {
                &&& r == Ok::<T, HioLastError>(old(self).model().items[0])
                &&& final(self).model() == old(self).model().dequeued()
                &&& final(self).last_signals() == old(self).model().pop_signals()
            },
    ;

    /// Pop after a wait bounded in time: a timed-out wait fails first,
    /// then an empty disposed queue.
    fn pop_timeout(&mut self, timed_out: bool) -> (r: Result<T, HioLastError>)
        requires
            old(self).inv(),
            timed_out || !old(self).model().pop_must_wait(),
        ensures
            final(self).inv(),
            final(self).model().wf(),
            timed_out ==> {
                &&& r == Err::<T, HioLastError>(HioLastError::Timeout)
                &&& final(self).model() == old(self).model()
                &&& final(self).last_signals() == no_signals()
            },
            !timed_out && old(self).model().items.len() == 0 ==> {
                &&& r == Err::<T, HioLastError>(HioLastError::ResourceUnavailable)
                &&& final(self).model() == old(self).model()
                &&& final(self).last_signals() == no_signals()
            },
            !timed_out && old(self).model().items.len() > 0 ==> {
                &&& r == Ok::<T, HioLastError>(old(self).model().items[0])
                &&& final(self).model() == old(self).model().dequeued()
                &&& final(self).last_signals() == old(self).model().pop_signals()
            },
    ;

    /// Takes every item, oldest first, and leaves the queue empty.
    fn drain(&mut self) -> (v: Vec<T>)
        requires
            old(self).inv(),
        ensures
            final(self).inv(),
            final(self).model().wf(),
            v@ == old(self).model().items,
            final(self).model() == old(self).model().with_items(Seq::empty()),
            final(self).last_drain_wakes() == old(self).model().drain_wakes(),
    ;

    /// Marks the queue disposed; true only for the call that did so, which
    /// is the one to wake every waiter.
    fn dispose(&mut self) -> (first: bool)
        requires
            old(self).inv(),
        ensures
            final(self).inv(),
            final(self).model().wf(),
            first == !old(self).model().disposed,
            final(self).model() == old(self).model().as_disposed(),
    ;

    fn size(&self) -> (n: usize)
        requires
            self.inv(),
        ensures
            n == self.model().items.len(),
    ;

    fn capacity(&self) -> (c: usize)
        requires
            self.inv(),
        ensures
            c == self.model().capacity,
    ;

    fn is_disposed(&self) -> (b: bool)
        requires
            self.inv(),
        ensures
            b == self.model().disposed,
    ;

    /// The conditions that the last enqueue or dequeue asked to signal.
    fn signals(&self) -> (s: Signals)
        ensures
            s == self.last_signals(),
    ;

    /// Whether the last drain asked to wake every waiting producer.
    fn drain_wakes_producers(&self) -> (b: bool)
        ensures
            b == self.last_drain_wakes(),
    ;
}

/// A blocking queue of either kind, as `create_bq` builds it.
pub enum BoundedQueue<T> {
    Array(ArrayBQ<T>),
    Linked(LinkedBQ<T>),
}

/// Builds an empty queue of the kind asked for; a capacity of zero means
/// no bound. There is no lock-free queue to build.
pub fn create_bq<T>(bq_type: BQType, capacity: usize) -> (q: BoundedQueue<T>)
    requires
        bq_type != BQType::LockFree,
    ensures
        q.inv(),
        q.model() == QueueModel::<T>::fresh(capacity),
        q.last_signals() == no_signals(),
        !q.last_drain_wakes(),
        bq_type == BQType::Array <==> q is Array,
        bq_type == BQType::Linked <==> q is Linked,
{
    match bq_type {
        BQType::Array => BoundedQueue::Array(ArrayBQ::new(capacity)),
        _ => BoundedQueue::Linked(LinkedBQ::new(capacity)),
    }
}

impl<T> BQ<T> for BoundedQueue<T> {
    closed spec fn model(&self) -> QueueModel<T> {
        match self {
            BoundedQueue::Array(q) => q.model(),
            BoundedQueue::Linked(q) => q.model(),
        }
    }

    closed spec fn inv(&self) -> bool {
        match self {
            BoundedQueue::Array(q) => q.inv(),
            BoundedQueue::Linked(q) => q.inv(),
        }
    }

    closed spec fn last_signals(&self) -> Signals {
        match self {
            BoundedQueue::Array(q) => q.last_signals(),
            BoundedQueue::Linked(q) => q.last_signals(),
        }
    }

    closed spec fn last_drain_wakes(&self) -> bool {
        match self {
            BoundedQueue::Array(q) => q.last_drain_wakes(),
            BoundedQueue::Linked(q) => q.last_drain_wakes(),
        }
    }

    fn push_must_wait(&self) -> (b: bool) {
        match self {
            BoundedQueue::Array(q) => q.push_must_wait(),
            BoundedQueue::Linked(q) => q.push_must_wait(),
        }
    }

    fn pop_must_wait(&self) -> (b: bool) {
        match self {
            BoundedQueue::Array(q) => q.pop_must_wait(),
            BoundedQueue::Linked(q) => q.pop_must_wait(),
        }
    }

    fn enter_push_wait(&mut self) {
        match self {
            BoundedQueue::Array(q) => q.enter_push_wait(),
            BoundedQueue::Linked(q) => q.enter_push_wait(),
        }
    }

    fn leave_push_wait(&mut self) {
        match self {
            BoundedQueue::Array(q) => q.leave_push_wait(),
            BoundedQueue::Linked(q) => q.leave_push_wait(),
        }
    }

    fn enter_pop_wait(&mut self) {
        match self {
            BoundedQueue::Array(q) => q.enter_pop_wait(),
            BoundedQueue::Linked(q) => q.enter_pop_wait(),
        }
    }

    fn leave_pop_wait(&mut self) {
        match self {
            BoundedQueue::Array(q) => q.leave_pop_wait(),
            BoundedQueue::Linked(q) => q.leave_pop_wait(),
        }
    }

    fn push(&mut self, item: T) -> (r: Result<(), (HioLastError, T)>) {
        match self {
            BoundedQueue::Array(q) => q.push(item),
            BoundedQueue::Linked(q) => q.push(item),
        }
    }

    fn try_push(&mut self, item: T) -> (r: Result<(), (HioLastError, T)>) {
        match self {
            BoundedQueue::Array(q) => q.try_push(item),
            BoundedQueue::Linked(q) => q.try_push(item),
        }
    }

    fn push_timeout(&mut self, item: T, timed_out: bool) -> (r: Result<(), (HioLastError, T)>) {
        match self {
            BoundedQueue::Array(q) => q.push_timeout(item, timed_out),
            BoundedQueue::Linked(q) => q.push_timeout(item, timed_out),
        }
    }

    fn pop(&mut self) -> (r: Result<T, HioLastError>) {
        match self {
            BoundedQueue::Array(q) => q.pop(),
            BoundedQueue::Linked(q) => q.pop(),
        }
    }

    fn try_pop(&mut self) -> (r: Result<T, HioLastError>) {
        match self {
            BoundedQueue::Array(q) => q.try_pop(),
            BoundedQueue::Linked(q) => q.try_pop(),
        }
    }

    fn pop_timeout(&mut self, timed_out: bool) -> (r: Result<T, HioLastError>) {
        match self {
            BoundedQueue::Array(q) => q.pop_timeout(timed_out),
            BoundedQueue::Linked(q) => q.pop_timeout(timed_out),
        }
    }

    fn drain(&mut self) -> (v: Vec<T>) {
        match self {
            BoundedQueue::Array(q) => q.drain(),
            BoundedQueue::Linked(q) => q.drain(),
        }
    }

    fn dispose(&mut self) -> (first: bool) {
        match self {
            BoundedQueue::Array(q) => q.dispose(),
            BoundedQueue::Linked(q) => q.dispose(),
        }
    }

    fn size(&self) -> (n: usize) {
        match self {
            BoundedQueue::Array(q) => q.size(),
            BoundedQueue::Linked(q) => q.size(),
        }
    }

    fn capacity(&self) -> (c: usize) {
        match self {
            BoundedQueue::Array(q) => q.capacity(),
            BoundedQueue::Linked(q) => q.capacity(),
        }
    }

    fn is_disposed(&self) -> (b: bool) {
        match self {
            BoundedQueue::Array(q) => q.is_disposed(),
            BoundedQueue::Linked(q) => q.is_disposed(),
        }
    }

    fn signals(&self) -> (s: Signals) {
        match self {
            BoundedQueue::Array(q) => q.signals(),
            BoundedQueue::Linked(q) => q.signals(),
        }
    }

    fn drain_wakes_producers(&self) -> (b: bool) {
        match self {
            BoundedQueue::Array(q) => q.drain_wakes_producers(),
            BoundedQueue::Linked(q) => q.drain_wakes_producers(),
        }
    }
}

/// The state after pushing each of `xs` in turn.
pub open spec fn pushed_all<T>(m: QueueModel<T>, xs: Seq<T>) -> QueueModel<T>
    decreases xs.len(),
{
    if xs.len() == 0 {
        m
    } else {
        pushed_all(m, xs.drop_last()).enqueued(xs.last())
    }
}

/// The state after `n` pops.
pub open spec fn popped_n<T>(m: QueueModel<T>, n: nat) -> QueueModel<T>
    decreases n,
{
    if n == 0 {
        m
    } else {
        popped_n(m, (n - 1) as nat).dequeued()
    }
}

/// First in, first out: pushing `xs` appends them behind what the queue
/// held, in the order pushed, and changes nothing else.
pub proof fn lemma_push_order<T>(m: QueueModel<T>, xs: Seq<T>)
    ensures
        pushed_all(m, xs).items == m.items + xs,
        pushed_all(m, xs) == m.with_items(m.items + xs),
    decreases xs.len(),
{
    if xs.len() == 0 {
        assert(m.items + xs =~= m.items);
    } else {
        lemma_push_order(m, xs.drop_last());
        assert((m.items + xs.drop_last()).push(xs.last()) =~= m.items + xs);
    }
}

/// First in, first out: after `n` pops the oldest `n` items are gone, so
/// the pop after them returns the item that was `n`-th oldest; nothing but
/// the items changes, so a disposed queue stays disposed.
pub proof fn lemma_pop_order<T>(m: QueueModel<T>, n: nat)
    requires
        n <= m.items.len(),
    ensures
        popped_n(m, n).items == m.items.subrange(n as int, m.items.len() as int),
        popped_n(m, n) == m.with_items(m.items.subrange(n as int, m.items.len() as int)),
        n < m.items.len() ==> popped_n(m, n).items[0] == m.items[n as int],
    decreases n,
{
    if n == 0 {
        assert(m.items.subrange(0, m.items.len() as int) =~= m.items);
    } else {
        lemma_pop_order(m, (n - 1) as nat);
        assert(m.items.subrange((n - 1) as int, m.items.len() as int).drop_first()
            =~= m.items.subrange(n as int, m.items.len() as int));
    }
}

/// No item is lost or duplicated: whatever a queue held and was pushed
/// comes out by pops in the same order, one each.
pub proof fn lemma_no_loss_no_duplication<T>(m: QueueModel<T>, xs: Seq<T>, k: nat)
    requires
        k < m.items.len() + xs.len(),
    ensures
        popped_n(pushed_all(m, xs), k).items[0] == (m.items + xs)[k as int],
        popped_n(pushed_all(m, xs), (m.items.len() + xs.len()) as nat).items.len() == 0,
{
    lemma_push_order(m, xs);
    lemma_pop_order(pushed_all(m, xs), k);
    lemma_pop_order(pushed_all(m, xs), (m.items.len() + xs.len()) as nat);
}

/// Disposing releases every waiter: on a disposed queue neither a push nor
/// a pop waits, and disposing again changes nothing.
pub proof fn lemma_dispose_releases_waiters<T>(m: QueueModel<T>)
    ensures
        !m.as_disposed().push_must_wait(),
        !m.as_disposed().pop_must_wait(),
        m.as_disposed().as_disposed() == m.as_disposed(),
        m.as_disposed().items == m.items,
{
}

/// A pop from a full queue makes room, so a producer waiting for room may
/// go on; a push into an empty queue gives a consumer an item.
pub proof fn lemma_pop_makes_room_push_gives_item<T>(m: QueueModel<T>, x: T)
    requires
        m.wf(),
    ensures
        m.items.len() > 0 ==> !m.dequeued().push_must_wait(),
        !m.enqueued(x).pop_must_wait(),
{
}

/// A thread that starts and stops waiting leaves the queue as it was.
pub proof fn lemma_waiter_round_trip<T>(m: QueueModel<T>)
    ensures
        m.with_push_waiters(m.push_waiters + 1).with_push_waiters(m.push_waiters) == m,
        m.with_pop_waiters(m.pop_waiters + 1).with_pop_waiters(m.pop_waiters) == m,
{
}

/// A queue never holds more items than its capacity: a push that may go on
/// keeps the bound, and so does every pop.
pub proof fn lemma_capacity_kept<T>(m: QueueModel<T>, x: T)
    requires
        m.wf(),
    ensures
        !m.push_must_wait() && !m.disposed ==> m.enqueued(x).wf(),
        m.dequeued().wf() || m.items.len() == 0,
        m.with_items(Seq::empty()).wf(),
{
}


/// A dequeue that frees room in a full queue while a producer waits for
/// room asks to wake a producer, and that producer may then go on; how many
/// consumers wait has no bearing on it. A dequeue asks for a producer only
/// when one waits and the queue was full.
pub proof fn lemma_pop_wakes_waiting_producer<T>(m: QueueModel<T>, consumers: nat)
    requires
        m.wf(),
    ensures
        m.items.len() > 0 && m.push_must_wait() && m.push_waiters > 0 ==> {
            &&& m.pop_signals().signal_not_full
            &&& !m.dequeued().push_must_wait()
        },
        m.items.len() == m.capacity && m.push_waiters > 0 ==> m.pop_signals().signal_not_full,
        m.pop_signals().signal_not_full ==> m.push_waiters > 0 && m.is_full(),
        m.push_waiters == 0 ==> !m.pop_signals().signal_not_full,
        m.with_pop_waiters(consumers).pop_signals().signal_not_full
            == m.pop_signals().signal_not_full,
{
}

/// An enqueue that still leaves room while producers wait asks to wake the
/// next producer, who may then go on; how many consumers wait has no
/// bearing on it. An enqueue asks for a producer only when one waits and
/// room is left after it.
pub proof fn lemma_push_cascades_to_waiting_producer<T>(m: QueueModel<T>, x: T, consumers: nat)
    requires
        m.wf(),
    ensures
        m.items.len() + 1 < m.capacity && m.push_waiters > 0 ==> {
            &&& m.push_signals().signal_not_full
            &&& !m.enqueued(x).push_must_wait()
        },
        m.push_signals().signal_not_full ==> m.push_waiters > 0 && !m.enqueued(x).is_full(),
        m.push_waiters == 0 ==> !m.push_signals().signal_not_full,
        m.with_pop_waiters(consumers).push_signals().signal_not_full
            == m.push_signals().signal_not_full,
{
}

/// A consumer is woken exactly when one waits and an item is there for it:
/// after an enqueue into an empty queue, or after a dequeue that leaves
/// items; how many producers wait has no bearing on it.
pub proof fn lemma_consumer_wakeups<T>(m: QueueModel<T>, x: T, producers: nat)
    requires
        m.wf(),
    ensures
        m.push_signals().signal_not_empty <==> (m.pop_must_wait() || (m.disposed
            && m.items.len() == 0)) && m.pop_waiters > 0,
        m.push_signals().signal_not_empty ==> !m.enqueued(x).pop_must_wait(),
        m.pop_signals().signal_not_empty <==> m.dequeued().items.len() > 0 && m.items.len() > 0
            && m.pop_waiters > 0,
        m.with_push_waiters(producers).push_signals().signal_not_empty
            == m.push_signals().signal_not_empty,
        m.with_push_waiters(producers).pop_signals().signal_not_empty
            == m.pop_signals().signal_not_empty,
{
}

} // verus!
