//! A blocking queue kept as a singly linked chain of nodes behind a dummy
//! head, with the nodes stored in a vector and linked by index.
use vstd::prelude::*;

use crate::bq::{
    ensure_capacity, no_signals, BQ, CondWaiters, QueueModel, Signals,
};
use crate::error::HioLastError;

verus! {

/// One link of the chain: the dummy head holds no item, every other node
/// holds one.
pub struct Node<T> {
    item: Option<T>,
    next: Option<usize>,
}

impl<T> Node<T> {
    /// The item the node holds, if any.
    pub closed spec fn item_spec(&self) -> Option<T> {
        self.item
    }

    /// The index of the node after this one, if any.
    pub closed spec fn next_spec(&self) -> Option<usize> {
        self.next
    }

    /// A node holding `item`, linked to nothing.
    pub fn new(item: Option<T>) -> (n: Self)
        ensures
            n.item_spec() == item,
            n.next_spec() == None::<usize>,
    {
        Node { item, next: None }
    }

    /// A node holding nothing, linked to nothing.
    pub fn dummy() -> (n: Self)
        ensures
            n.item_spec() == None::<T>,
            n.next_spec() == None::<usize>,
    {
        Self::new(None)
    }
}

/// The item of a node that holds one.
spec fn item_of<T>(n: Node<T>) -> T {
    n.item->Some_0
}

/// The items met along `chain`, the dummy head left out.
spec fn chain_items<T>(nodes: Seq<Node<T>>, chain: Seq<usize>) -> Seq<T> {
    Seq::new((chain.len() - 1) as nat, |k: int| item_of(nodes[chain[k + 1] as int]))
}

/// `chain` lists the nodes from `head` to `tail` as they are linked.
spec fn chain_ok<T>(nodes: Seq<Node<T>>, chain: Seq<usize>, head: usize, tail: usize) -> bool {
    &&& chain.len() >= 1
    &&& chain[0] == head
    &&& chain.last() == tail
    &&& chain.no_duplicates()
    &&& forall|i: int| 0 <= i < chain.len() ==> #[trigger] chain[i] < nodes.len()
    &&& forall|i: int|
        0 <= i < chain.len() - 1 ==> #[trigger] nodes[chain[i] as int].next == Some(chain[i + 1])
    &&& nodes[tail as int].next == None::<usize>
    &&& nodes[head as int].item is None
    &&& forall|i: int| 1 <= i < chain.len() ==> (#[trigger] nodes[chain[i] as int]).item is Some
}

/// The free slots are distinct, in range, and off the chain.
spec fn free_ok<T>(nodes: Seq<Node<T>>, chain: Seq<usize>, free: Seq<usize>) -> bool {
    &&& free.no_duplicates()
    &&& forall|j: int| 0 <= j < free.len() ==> #[trigger] free[j] < nodes.len()
    &&& forall|j: int| 0 <= j < free.len() ==> !chain.contains(#[trigger] free[j])
}

/// A bounded FIFO queue over a linked chain of nodes.
pub struct LinkedBQ<T> {
    capacity: usize,
    count: usize,
    disposed: bool,
    push_waiters: CondWaiters,
    pop_waiters: CondWaiters,
    nodes: Vec<Node<T>>,
    free: Vec<usize>,
    head: usize,
    tail: usize,
    signals: Signals,
    drain_wakes: bool,
    chain: Ghost<Seq<usize>>,
}

impl<T> LinkedBQ<T> {
    /// An empty queue; a capacity of zero means no bound.
    pub fn new(capacity: usize) -> (q: Self)
        ensures
            q.inv(),
            q.model() == QueueModel::<T>::fresh(capacity),
            q.last_signals() == no_signals(),
            !q.last_drain_wakes(),
    {
        let capacity = ensure_capacity(capacity);
        let mut nodes: Vec<Node<T>> = Vec::new();
        nodes.push(Node::dummy());
        let q = LinkedBQ {
            capacity,
            count: 0,
            disposed: false,
            push_waiters: CondWaiters::new(),
            pop_waiters: CondWaiters::new(),
            nodes,
            free: Vec::new(),
            head: 0,
            tail: 0,
            signals: Signals::none(),
            drain_wakes: false,
            chain: Ghost(Seq::empty().push(0usize)),
        };
        assert(q.model().items =~= Seq::<T>::empty());
        q
    }

    fn is_empty(&self) -> (b: bool)
        requires
            self.inv(),
        ensures
            b == (self.model().items.len() == 0),
    {
        self.count == 0
    }

    fn is_full(&self) -> (b: bool)
        requires
            self.inv(),
        ensures
            b == self.model().is_full(),
    {
        self.count >= self.capacity
    }

    /// Links a new node holding `item` after the tail, reusing a free
    /// slot when there is one.
    fn link_tail(&mut self, item: T)
        requires
            old(self).inv(),
            !old(self).model().is_full(),
        ensures
            final(self).inv(),
            final(self).model() == old(self).model().enqueued(item),
            final(self).signals == old(self).signals,
            final(self).drain_wakes == old(self).drain_wakes,
    {
        let ghost old_nodes = self.nodes@;
        let ghost old_chain = self.chain@;
        let ghost old_free = self.free@;
        let idx: usize;
        if self.free.len() > 0 {
            idx = self.free.pop().unwrap();
            assert(old_free[old_free.len() - 1] == idx);
            self.nodes.set(idx, Node::new(Some(item)));
        } else {
            idx = self.nodes.len();
            self.nodes.push(Node::new(Some(item)));
        }
        assert(!old_chain.contains(idx)) by {
            if old_chain.contains(idx) {
                let i = choose|i: int| 0 <= i < old_chain.len() && old_chain[i] == idx;
                assert(old_chain[i] < old_nodes.len());
            }
        }
        let t = self.tail;
        let mut tn = Node::dummy();
        self.nodes.set_and_swap(t, &mut tn);
        tn.next = Some(idx);
        self.nodes.set(t, tn);
        self.tail = idx;
        self.count = self.count + 1;
        self.chain = Ghost(old_chain.push(idx));
        proof {
            let nodes = self.nodes@;
            let chain = self.chain@;
            assert forall|i: int| 0 <= i < old_chain.len() - 1 implies nodes[old_chain[i] as int]
                == old_nodes[old_chain[i] as int] by {
                assert(old_chain[i] != old_chain.last()) by {
                    assert(old_chain.no_duplicates());
                }
            }
            assert forall|i: int| 0 <= i < chain.len() - 1 implies #[trigger] nodes[chain[i] as int].next
                == Some(chain[i + 1]) by {
                if i < old_chain.len() - 1 {
                    assert(chain[i] == old_chain[i]);
                    assert(chain[i + 1] == old_chain[i + 1]);
                }
            }
            assert forall|i: int| 1 <= i < chain.len() implies (#[trigger] nodes[chain[i] as int]).item is Some by {
                if i < old_chain.len() - 1 {
                    assert(chain[i] == old_chain[i]);
                } else if i == old_chain.len() - 1 {
                    assert(chain[i] == t);
                }
            }
            assert forall|i: int| 0 <= i < chain.len() implies #[trigger] chain[i] < nodes.len() by {
                if i < old_chain.len() {
                    assert(chain[i] == old_chain[i]);
                }
            }
            assert(chain.no_duplicates()) by {
                assert forall|a: int, b: int| 0 <= a < b < chain.len() implies chain[a] != chain[b] by {
                    if b < old_chain.len() {
                        assert(old_chain[a] != old_chain[b]);
                    } else {
                        assert(chain[a] == old_chain[a]);
                    }
                }
            }
            let free = self.free@;
            assert forall|j: int| 0 <= j < free.len() implies !chain.contains(#[trigger] free[j]) by {
                assert(free[j] == old_free[j]);
                assert(!old_chain.contains(old_free[j]));
                assert(free[j] != idx) by {
                    if old_free.len() > free.len() {
                        assert(old_free.no_duplicates());
                        assert(old_free[j] != old_free[old_free.len() - 1]);
                    }
                }
                if chain.contains(free[j]) {
                    let i = choose|i: int| 0 <= i < chain.len() && chain[i] == free[j];
                    if i < old_chain.len() {
                        assert(old_chain[i] == free[j]);
                    }
                }
            }
            assert forall|j: int| 0 <= j < free.len() implies #[trigger] free[j] < nodes.len() by {
                assert(free[j] == old_free[j]);
            }
            assert(self.model().items =~= old(self).model().items.push(item)) by {
                let items = self.model().items;
                let old_items = old(self).model().items;
                assert forall|k: int| 0 <= k < old_items.len() implies items[k] == old_items[k] by {
                    assert(chain[k + 1] == old_chain[k + 1]);
                    if k + 1 == old_chain.len() - 1 {
                        assert(old_chain[k + 1] == t);
                    } else {
                        assert(nodes[old_chain[k + 1] as int] == old_nodes[old_chain[k + 1] as int]);
                    }
                }
            }
        }
    }

    /// What unlinking the dummy head leaves: the first real node, its item
    /// taken, is the new dummy head with its link kept; every node behind it
    /// and the tail are as they were; the old dummy's slot holds an empty
    /// node and joins the free slots once; one item fewer is counted.
    spec fn unlinked_from(self, prev: Self) -> bool {
        &&& self.tail == prev.tail
        &&& self.chain@ == prev.chain@.drop_first()
        &&& self.head == prev.chain@[1]
        &&& self.nodes@.len() == prev.nodes@.len()
        &&& self.nodes@[self.head as int].item is None
        &&& self.nodes@[self.head as int].next == prev.nodes@[self.head as int].next
        &&& forall|i: int|
            1 <= i < self.chain@.len() ==> self.nodes@[#[trigger] self.chain@[i] as int]
                == prev.nodes@[self.chain@[i] as int]
        &&& self.nodes@[prev.head as int].item is None
        &&& self.nodes@[prev.head as int].next == None::<usize>
        &&& self.free@ == prev.free@.push(prev.head)
        &&& !prev.free@.contains(prev.head)
        &&& self.count == prev.count - 1
    }

    /// Unlinks the dummy head; the first real node gives up its item and
    /// becomes the new dummy head, and the old head's slot is freed.
    fn unlink_head(&mut self) -> (item: T)
        requires
            old(self).inv(),
            old(self).model().items.len() > 0,
        ensures
            final(self).inv(),
            item == old(self).model().items[0],
            final(self).model() == old(self).model().dequeued(),
            final(self).unlinked_from(*old(self)),
            final(self).signals == old(self).signals,
            final(self).drain_wakes == old(self).drain_wakes,
    {
        let ghost old_nodes = self.nodes@;
        let ghost old_chain = self.chain@;
        let ghost old_free = self.free@;
        let h = self.head;
        assert(old_nodes[old_chain[0] as int].next == Some(old_chain[1]));
        let nh = self.nodes[h].next.unwrap();
        assert(old_nodes[old_chain[1] as int].item is Some);
        let nn = self.nodes[nh].next;
        let mut taken = Node { item: None, next: nn };
        self.nodes.set_and_swap(nh, &mut taken);
        let item = taken.item.unwrap();
        self.nodes.set(h, Node::dummy());
        self.free.push(h);
        self.head = nh;
        self.count = self.count - 1;
        self.chain = Ghost(old_chain.drop_first());
        proof {
            let nodes = self.nodes@;
            let chain = self.chain@;
            let free = self.free@;
            assert forall|i: int| 0 <= i < chain.len() implies chain[i] == old_chain[i + 1] by {}
            assert forall|i: int| 1 <= i < chain.len() implies nodes[chain[i] as int]
                == old_nodes[chain[i] as int] by {
                assert(old_chain[i + 1] != old_chain[1]);
                assert(old_chain[i + 1] != old_chain[0]);
            }
            assert(nodes[nh as int].next == old_nodes[nh as int].next);
            assert forall|i: int| 0 <= i < chain.len() - 1 implies #[trigger] nodes[chain[i] as int].next
                == Some(chain[i + 1]) by {
                assert(old_nodes[old_chain[i + 1] as int].next == Some(old_chain[i + 2]));
            }
            assert forall|i: int| 1 <= i < chain.len() implies (#[trigger] nodes[chain[i] as int]).item is Some by {
                assert(old_nodes[old_chain[i + 1] as int].item is Some);
            }
            assert forall|i: int| 0 <= i < chain.len() implies #[trigger] chain[i] < nodes.len() by {
                assert(old_chain[i + 1] < old_nodes.len());
            }
            assert(nodes[self.tail as int].next == None::<usize>) by {
                if chain.len() > 1 {
                    assert(chain.last() == old_chain.last());
                    assert(nodes[chain[chain.len() - 1] as int] == old_nodes[chain[chain.len() - 1] as int]);
                }
            }
            assert(chain.no_duplicates()) by {
                assert forall|a: int, b: int| 0 <= a < b < chain.len() implies chain[a] != chain[b] by {
                    assert(old_chain[a + 1] != old_chain[b + 1]);
                }
            }
            assert forall|j: int| 0 <= j < free.len() implies !chain.contains(#[trigger] free[j]) by {
                if chain.contains(free[j]) {
                    let i = choose|i: int| 0 <= i < chain.len() && chain[i] == free[j];
                    assert(old_chain[i + 1] == free[j]);
                    if j < old_free.len() {
                        assert(free[j] == old_free[j]);
                        assert(old_chain.contains(old_free[j]));
                    } else {
                        assert(free[j] == h);
                        assert(old_chain[0] == h);
                    }
                }
            }
            assert forall|j: int| 0 <= j < free.len() implies #[trigger] free[j] < nodes.len() by {
                if j < old_free.len() {
                    assert(free[j] == old_free[j]);
                }
            }
            assert(free.no_duplicates()) by {
                assert(!old_free.contains(h)) by {
                    if old_free.contains(h) {
                        let j = choose|j: int| 0 <= j < old_free.len() && old_free[j] == h;
                        assert(!old_chain.contains(old_free[j]));
                        assert(old_chain[0] == h);
                    }
                }
                assert forall|a: int, b: int| 0 <= a < b < free.len() implies free[a] != free[b] by {
                    if b < old_free.len() {
                        assert(old_free[a] != old_free[b]);
                    } else {
                        assert(free[a] == old_free[a]);
                    }
                }
            }
            assert(self.model().items =~= old(self).model().items.drop_first()) by {
                let items = self.model().items;
                let old_items = old(self).model().items;
                assert forall|k: int| 0 <= k < items.len() implies items[k] == old_items[k + 1] by {
                    assert(chain[k + 1] == old_chain[k + 2]);
                }
            }
        }
        item
    }

    /// Enqueues into a queue with room, and records what to signal.
    fn en_q(&mut self, item: T)
        requires
            old(self).inv(),
            !old(self).model().is_full(),
        ensures
            final(self).inv(),
            final(self).model() == old(self).model().enqueued(item),
            final(self).last_signals() == old(self).model().push_signals(),
            final(self).drain_wakes == old(self).drain_wakes,
    {
        let prev = self.count;
        self.link_tail(item);
        self.signals = Signals {
            signal_not_empty: prev == 0 && self.pop_waiters.any(),
            signal_not_full: prev + 1 < self.capacity && self.push_waiters.any(),
        };
    }

    /// Dequeues from a non-empty queue, and records what to signal.
    fn de_q(&mut self) -> (item: T)
        requires
            old(self).inv(),
            old(self).model().items.len() > 0,
        ensures
            final(self).inv(),
            item == old(self).model().items[0],
            final(self).model() == old(self).model().dequeued(),
            final(self).unlinked_from(*old(self)),
            final(self).last_signals() == old(self).model().pop_signals(),
            final(self).drain_wakes == old(self).drain_wakes,
    {
        let prev = self.count;
        let item = self.unlink_head();
        self.signals = Signals {
            signal_not_empty: prev > 1 && self.pop_waiters.any(),
            signal_not_full: prev == self.capacity && self.push_waiters.any(),
        };
        item
    }
}

impl<T> BQ<T> for LinkedBQ<T> {
    closed spec fn model(&self) -> QueueModel<T> {
        QueueModel {
            items: chain_items(self.nodes@, self.chain@),
            capacity: self.capacity as nat,
            disposed: self.disposed,
            push_waiters: self.push_waiters@,
            pop_waiters: self.pop_waiters@,
        }
    }

    closed spec fn inv(&self) -> bool {
        &&& chain_ok(self.nodes@, self.chain@, self.head, self.tail)
        &&& free_ok(self.nodes@, self.chain@, self.free@)
        &&& self.count == self.chain@.len() - 1
        &&& self.model().wf()
    }

    closed spec fn last_signals(&self) -> Signals {
        self.signals
    }

    closed spec fn last_drain_wakes(&self) -> bool {
        self.drain_wakes
    }

    fn push_must_wait(&self) -> (b: bool) {
        !self.disposed && self.is_full()
    }

    fn pop_must_wait(&self) -> (b: bool) {
        !self.disposed && self.is_empty()
    }

    fn enter_push_wait(&mut self) {
        self.push_waiters.enter();
    }

    fn leave_push_wait(&mut self) {
        self.push_waiters.leave();
    }

    fn enter_pop_wait(&mut self) {
        self.pop_waiters.enter();
    }

    fn leave_pop_wait(&mut self) {
        self.pop_waiters.leave();
    }

    fn push(&mut self, item: T) -> (r: Result<(), (HioLastError, T)>) {
        if self.disposed {
            self.signals = Signals::none();
            return Err((HioLastError::ResourceUnavailable, item));
        }
        self.en_q(item);
        Ok(())
    }

    fn try_push(&mut self, item: T) -> (r: Result<(), (HioLastError, T)>) {
        if self.disposed {
            self.signals = Signals::none();
            return Err((HioLastError::ResourceUnavailable, item));
        }
        if self.is_full() {
            self.signals = Signals::none();
            return Err((HioLastError::WouldBlock, item));
        }
        self.en_q(item);
        Ok(())
    }

    fn push_timeout(&mut self, item: T, timed_out: bool) -> (r: Result<(), (HioLastError, T)>) {
        if timed_out {
            self.signals = Signals::none();
            return Err((HioLastError::Timeout, item));
        }
        if self.disposed {
            self.signals = Signals::none();
            return Err((HioLastError::ResourceUnavailable, item));
        }
        self.en_q(item);
        Ok(())
    }

    fn pop(&mut self) -> (r: Result<T, HioLastError>) {
        if self.is_empty() {
            self.signals = Signals::none();
            return Err(HioLastError::ResourceUnavailable);
        }
        Ok(self.de_q())
    }

    fn try_pop(&mut self) -> (r: Result<T, HioLastError>) {
        if self.is_empty() {
            self.signals = Signals::none();
            return Err(
                if self.disposed {
                    HioLastError::ResourceUnavailable
                } else {
                    HioLastError::WouldBlock
                },
            );
        }
        Ok(self.de_q())
    }

    fn pop_timeout(&mut self, timed_out: bool) -> (r: Result<T, HioLastError>) {
        if timed_out {
            self.signals = Signals::none();
            return Err(HioLastError::Timeout);
        }
        if self.is_empty() {
            self.signals = Signals::none();
            return Err(HioLastError::ResourceUnavailable);
        }
        Ok(self.de_q())
    }

    fn drain(&mut self) -> (v: Vec<T>) {
        let ghost start = self.model().items;
        let n = self.count;
        let mut out: Vec<T> = Vec::new();
        let mut i: usize = 0;
        while i < n
            invariant
                self.inv(),
                0 <= i <= n,
                n == start.len(),
                out@ + self.model().items == start,
                self.model().items.len() == n - i,
                self.model() == old(self).model().with_items(self.model().items),
                self.signals == old(self).signals,
            decreases n - i,
        {
            let x = self.unlink_head();
            proof {
                assert(self.model().items.len() == n - i - 1);
            }
            out.push(x);
            i = i + 1;
            proof {
                assert(out@ + self.model().items =~= start);
            }
        }
        assert(self.model().items =~= Seq::<T>::empty());
        assert(out@ =~= start);
        self.drain_wakes = n > 0 && self.push_waiters.any();
        out
    }

    fn dispose(&mut self) -> (first: bool) {
        if self.disposed {
            false
        } else {
            self.disposed = true;
            true
        }
    }

    fn size(&self) -> (n: usize) {
        self.count
    }

    fn capacity(&self) -> (c: usize) {
        self.capacity
    }

    fn is_disposed(&self) -> (b: bool) {
        self.disposed
    }

    fn signals(&self) -> (s: Signals) {
        self.signals
    }

    fn drain_wakes_producers(&self) -> (b: bool) {
        self.drain_wakes
    }
}

} // verus!
