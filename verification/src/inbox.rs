//! The inbox of one connection: the events the polling thread hands over,
//! drained in order by one job at a time.
use std::collections::VecDeque;

use vstd::prelude::*;

use crate::transport::ConnId;

verus! {

broadcast use vstd::std_specs::vecdeque::group_vec_dequeue_axioms;

/// An event of a connection.
pub enum InboxMsg {
    Connected,
    Data(Vec<u8>),
    Closed,
}

/// The events of one connection not yet handled, and whether a job that
/// handles them is under way.
pub struct Inbox {
    id: ConnId,
    queue: VecDeque<InboxMsg>,
    running: bool,
}

impl Inbox {
    pub closed spec fn conn(&self) -> ConnId {
        self.id
    }

    /// The events waiting, oldest first.
    pub closed spec fn messages(&self) -> Seq<InboxMsg> {
        self.queue@
    }

    /// Whether a draining job is under way.
    pub closed spec fn draining(&self) -> bool {
        self.running
    }

    pub fn new(id: ConnId) -> (b: Self)
        ensures
            b.conn() == id,
            b.messages() == Seq::<InboxMsg>::empty(),
            !b.draining(),
    {
        Inbox { id, queue: VecDeque::new(), running: false }
    }

    pub fn id(&self) -> (id: ConnId)
        ensures
            id == self.conn(),
    {
        self.id
    }

    /// Queues an event; true when no job drains the inbox yet, so that the
    /// caller submits one. At most one job drains at a time.
    pub fn enqueue(&mut self, msg: InboxMsg) -> (submit: bool)
        ensures
            final(self).messages() == old(self).messages().push(msg),
            final(self).conn() == old(self).conn(),
            submit == !old(self).draining(),
            final(self).draining(),
    {
        self.queue.push_back(msg);
        if self.running {
            false
        } else {
            self.running = true;
            true
        }
    }

    /// The draining job takes the oldest event; when none is left the job
    /// ends, and the next event submits a new one.
    pub fn next_message(&mut self) -> (m: Option<InboxMsg>)
        ensures
            final(self).conn() == old(self).conn(),
            old(self).messages().len() == 0 ==> {
                &&& m is None
                &&& final(self).messages() == old(self).messages()
                &&& !final(self).draining()
            },
            old(self).messages().len() > 0 ==> {
                &&& m == Some(old(self).messages()[0])
                &&& final(self).messages() == old(self).messages().drop_first()
                &&& final(self).draining() == old(self).draining()
            },
    {
        let m = self.queue.pop_front();
        if m.is_none() {
            self.running = false;
        }
        proof {
            if old(self).messages().len() > 0 {
                assert(self.queue@ =~= old(self).messages().drop_first());
            }
        }
        m
    }
}

} // verus!
