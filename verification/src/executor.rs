//! Executors: the kinds there are, the interface they offer, and the
//! admission limit of the thread-per-task pool.
use vstd::prelude::*;

use crate::error::HioLastError;

verus! {

/// Which kind of executor to build.
#[derive(Debug, Clone, Copy, PartialEq, Eq, Structural)]
pub enum ExecutorType {
    ThreadPool,
    ThreadPerTask,
    WorkStealing,
}

/// What an executor offers: it takes jobs of type `J` and runs them on
/// threads of its own.
pub trait Executor<J> {
    fn submit(&self, job: J) -> Result<(), HioLastError>;

    fn dispose(&mut self);

    fn is_disposed(&self) -> bool;

    fn worker_count(&self) -> usize;
}

/// The number of workers to start: as asked, or, for zero, the
/// parallelism the machine offers, or one when it offers no answer.
pub open spec fn effective_workers(num_workers: usize, parallelism: Option<usize>) -> usize {
    if num_workers == 0 {
        match parallelism {
            Some(p) => p,
            None => 1,
        }
    } else {
        num_workers
    }
}

pub fn ensure_num_workers(num_workers: usize, parallelism: Option<usize>) -> (n: usize)
    ensures
        n == effective_workers(num_workers, parallelism),
        num_workers > 0 ==> n == num_workers,
        num_workers == 0 && parallelism is Some ==> n == parallelism->Some_0,
        num_workers == 0 && parallelism is None ==> n == 1,
{
    if num_workers == 0 {
        match parallelism {
            Some(p) => p,
            None => 1,
        }
    } else {
        num_workers
    }
}

/// How many tasks of a thread-per-task pool run at once, and under what
/// bound; a bound of zero means none.
pub struct TaskLimiter {
    count: usize,
    max_threads: usize,
    disposed: bool,
}

impl TaskLimiter {
    pub closed spec fn running(&self) -> nat {
        self.count as nat
    }

    pub closed spec fn limit(&self) -> nat {
        self.max_threads as nat
    }

    pub closed spec fn closed(&self) -> bool {
        self.disposed
    }

    /// A task waiting to start waits while this holds.
    pub open spec fn must_wait_spec(&self) -> bool {
        self.limit() > 0 && !self.closed() && self.running() >= self.limit()
    }

    pub fn new(max_threads: usize) -> (l: Self)
        ensures
            l.running() == 0,
            l.limit() == max_threads,
            !l.closed(),
    {
        TaskLimiter { count: 0, max_threads, disposed: false }
    }

    pub fn must_wait(&self) -> (b: bool)
        ensures
            b == self.must_wait_spec(),
            b <==> self.limit() > 0 && !self.closed() && self.running() >= self.limit(),
    {
        self.max_threads > 0 && !self.disposed && self.count >= self.max_threads
    }

    /// Admits a task once the wait is over: refused on a disposed pool,
    /// else counted.
    pub fn acquire(&mut self) -> (admitted: bool)
        requires
            !old(self).must_wait_spec(),
            old(self).running() < usize::MAX,
        ensures
            admitted == !old(self).closed(),
            admitted ==> final(self).running() == old(self).running() + 1,
            !admitted ==> final(self).running() == old(self).running(),
            final(self).limit() == old(self).limit(),
            final(self).closed() == old(self).closed(),
    {
        if self.disposed {
            return false;
        }
        self.count = self.count + 1;
        true
    }

    /// A task has finished; one waiting task may go on.
    pub fn release(&mut self)
        requires
            old(self).running() > 0,
        ensures
            final(self).running() == old(self).running() - 1,
            final(self).limit() == old(self).limit(),
            final(self).closed() == old(self).closed(),
    {
        self.count = self.count - 1;
    }

    pub fn count(&self) -> (n: usize)
        ensures
            n == self.running(),
    {
        self.count
    }

    pub fn is_disposed(&self) -> (b: bool)
        ensures
            b == self.closed(),
    {
        self.disposed
    }

    /// Closes the pool to new tasks; true only for the call that closed it,
    /// which is the one to wake every waiting task.
    pub fn dispose(&mut self) -> (first: bool)
        ensures
            first == !old(self).closed(),
            final(self).closed(),
            final(self).running() == old(self).running(),
            final(self).limit() == old(self).limit(),
    {
        if self.disposed {
            false
        } else {
            self.disposed = true;
            true
        }
    }
}

/// The bound is never exceeded: with a bound set, a task admitted once the
/// wait is over still leaves the running count within it.
pub proof fn lemma_limit_kept(l: TaskLimiter)
    requires
        l.limit() > 0,
        l.running() <= l.limit(),
        !l.must_wait_spec(),
        !l.closed(),
    ensures
        l.running() + 1 <= l.limit(),
{
}


/// A nonzero request for workers is kept as asked, whatever the machine
/// offers; only a request for none falls back to the machine's parallelism,
/// or one without an answer.
pub proof fn lemma_request_kept(num_workers: usize, parallelism: Option<usize>)
    ensures
        num_workers > 0 ==> effective_workers(num_workers, parallelism) == num_workers,
        num_workers == 0 ==> effective_workers(num_workers, parallelism) == match parallelism {
            Some(p) => p,
            None => 1usize,
        },
{
}

/// With a bound set and the pool open, a task waits exactly when as many
/// tasks run as the bound allows; below the bound it is admitted at once.
/// Without a bound, or once the pool is closed, nothing waits.
pub proof fn lemma_wait_only_at_the_bound(l: TaskLimiter)
    ensures
        l.limit() > 0 && !l.closed() ==> (l.must_wait_spec() <==> l.running() >= l.limit()),
        l.running() < l.limit() ==> !l.must_wait_spec(),
        l.limit() == 0 ==> !l.must_wait_spec(),
        l.closed() ==> !l.must_wait_spec(),
{
}

} // verus!
