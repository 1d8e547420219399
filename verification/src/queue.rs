//! FIFO wait line for jobs: insertion order is service order, and no job is
//! reordered, duplicated, or lost.

use vstd::prelude::*;

use crate::job::Job;
use std::collections::VecDeque;

verus! {

/// Queue storing waiting jobs in arrival order.
#[derive(Debug)]
pub struct JobQueue {
    inner: VecDeque<Job>,
}

impl View for JobQueue {
    type V = Seq<Job>;

    closed spec fn view(&self) -> Seq<Job> {
        self.inner@
    }
}

impl Default for JobQueue {
    /// An empty queue.
    fn default() -> (q: JobQueue)
        ensures
            q@ == Seq::<Job>::empty(),
    {
        JobQueue::new()
    }
}

impl JobQueue {
    /// Create an empty queue.
    pub fn new() -> (q: JobQueue)
        ensures
            q@ == Seq::<Job>::empty(),
    {
        JobQueue { inner: VecDeque::new() }
    }

    /// Add a job to the back of the queue.
    pub fn push(&mut self, job: Job)
        ensures
            final(self)@ == old(self)@.push(job),
    {
        self.inner.push_back(job);
    }

    /// Remove and return the job at the front, or nothing when the queue is
    /// empty.
    pub fn pop(&mut self) -> (r: Option<Job>)
        ensures
            old(self)@.len() == 0 ==> r is None && final(self)@ == old(self)@,
            old(self)@.len() > 0 ==> r == Some(old(self)@[0]) && final(self)@ == old(
                self,
            )@.subrange(1, old(self)@.len() as int),
    {
        self.inner.pop_front()
    }

    /// How many jobs are currently waiting.
    pub fn len(&self) -> (n: usize)
        ensures
            n == self@.len(),
    {
        self.inner.len()
    }

    /// Whether no job is waiting.
    pub fn is_empty(&self) -> (r: bool)
        ensures
            r == (self@.len() == 0),
    {
        self.inner.len() == 0
    }
}

/// The contents of a queue after pushing each element of `jobs`, in order,
/// onto a queue holding `v`, with no pop in between: exactly what repeated
/// `JobQueue::push` calls produce.
pub open spec fn after_pushes(v: Seq<Job>, jobs: Seq<Job>) -> Seq<Job>
    decreases jobs.len(),
{
    if jobs.len() == 0 {
        v
    } else {
        after_pushes(v.push(jobs[0]), jobs.subrange(1, jobs.len() as int))
    }
}

/// First-in-first-out order: pushing `jobs` onto a queue holding `v`, with
/// no interleaved pops, leaves the queue holding `v` followed by `jobs`;
/// starting from an empty queue, the k-th subsequent pop therefore returns
/// `jobs[k]` (a pop returns the head and leaves the tail).
pub proof fn lemma_fifo_order(v: Seq<Job>, jobs: Seq<Job>)
    ensures
        after_pushes(v, jobs) == v + jobs,
        forall|k: int|
            0 <= k < jobs.len() ==> after_pushes(Seq::empty(), jobs).skip(k)[0] == jobs[k],
{
    lemma_after_pushes_concat(v, jobs);
    lemma_after_pushes_concat(Seq::empty(), jobs);
    assert(Seq::empty() + jobs =~= jobs);
    assert forall|k: int| 0 <= k < jobs.len() implies after_pushes(Seq::empty(), jobs).skip(k)[0]
        == jobs[k] by {
        assert(jobs.skip(k)[0] == jobs[k]);
    }
}

proof fn lemma_after_pushes_concat(v: Seq<Job>, jobs: Seq<Job>)
    ensures
        after_pushes(v, jobs) == v + jobs,
    decreases jobs.len(),
{
    if jobs.len() == 0 {
        assert(after_pushes(v, jobs) =~= v + jobs);
    } else {
        let rest = jobs.subrange(1, jobs.len() as int);
        lemma_after_pushes_concat(v.push(jobs[0]), rest);
        assert(v.push(jobs[0]) + rest =~= v + jobs);
    }
}

} // verus!
