//! The job entity: one unit of work entering the system, with its arrival
//! tick, its fixed service demand, and the ticks at which service actually
//! started and finished.

use vstd::prelude::*;

verus! {

/// One unit of work moving through the system.
#[derive(Debug, Clone, Copy)]
pub struct Job {
    /// Unique id for this job within one run.
    pub id: u64,
    /// Tick at which the job entered the system.
    pub arrival_time: u64,
    /// Ticks of processing this job needs, fixed at creation.
    pub service_time: u64,
    /// Tick at which the server began processing it, once started.
    pub start_service_time: Option<u64>,
    /// Tick at which service completed, once finished.
    pub finish_time: Option<u64>,
}

impl Job {
    /// A started job never starts before it arrived, and a finished job was
    /// started and finished exactly its service time after it started.
    pub open spec fn wf(self) -> bool {
        &&& (self.start_service_time matches Some(st) ==> st >= self.arrival_time)
        &&& (self.finish_time matches Some(ft) ==> (self.start_service_time matches Some(st)
                && ft == st + self.service_time))
    }

    /// Ticks the job waited before being served: start minus arrival,
    /// clamped at zero. Absent until the job is started.
    pub open spec fn spec_wait_time(self) -> Option<u64> {
        match self.start_service_time {
            Some(st) => Some(
                if st >= self.arrival_time {
                    (st - self.arrival_time) as u64
                } else {
                    0
                },
            ),
            None => None,
        }
    }

    /// Total ticks the job spent in the system: finish minus arrival,
    /// clamped at zero. Absent until the job is finished.
    pub open spec fn spec_system_time(self) -> Option<u64> {
        match self.finish_time {
            Some(ft) => Some(
                if ft >= self.arrival_time {
                    (ft - self.arrival_time) as u64
                } else {
                    0
                },
            ),
            None => None,
        }
    }

    /// Create a new job with the given identity, arrival tick, and service
    /// demand; it is neither started nor finished.
    pub fn new(id: u64, arrival_time: u64, service_time: u64) -> (j: Job)
        ensures
            j == (Job {
                id,
                arrival_time,
                service_time,
                start_service_time: None,
                finish_time: None,
            }),
    {
        Job { id, arrival_time, service_time, start_service_time: None, finish_time: None }
    }

    /// Record the moment the server begins processing this job. Callable at
    /// most once per job.
    pub fn mark_started(&mut self, t: u64)
        requires
            old(self).start_service_time is None,
        ensures
            *final(self) == (Job { start_service_time: Some(t), ..*old(self) }),
    {
        self.start_service_time = Some(t);
    }

    /// Record the moment the job is completely finished. Callable at most
    /// once per job.
    pub fn mark_finished(&mut self, t: u64)
        requires
            old(self).finish_time is None,
        ensures
            *final(self) == (Job { finish_time: Some(t), ..*old(self) }),
    {
        self.finish_time = Some(t);
    }

    /// How long the job waited before being served; absent until started.
    pub fn wait_time(&self) -> (r: Option<u64>)
        ensures
            r == self.spec_wait_time(),
    {
        match self.start_service_time {
            Some(st) => Some(
                if st >= self.arrival_time {
                    st - self.arrival_time
                } else {
                    0
                },
            ),
            None => None,
        }
    }

    /// Total time the job spent in the whole system; absent until finished.
    pub fn system_time(&self) -> (r: Option<u64>)
        ensures
            r == self.spec_system_time(),
    {
        match self.finish_time {
            Some(ft) => Some(
                if ft >= self.arrival_time {
                    ft - self.arrival_time
                } else {
                    0
                },
            ),
            None => None,
        }
    }
}

/// Wait-time non-negativity: every started, well-formed job has a defined
/// wait time equal to the (non-negative) difference between the tick its
/// service started and the tick it arrived.
pub proof fn lemma_wait_time_nonneg(j: Job)
    requires
        j.wf(),
        j.start_service_time is Some,
    ensures
        (j.spec_wait_time() matches Some(w) && (j.start_service_time matches Some(st) && st
            - j.arrival_time == w)),
{
}

/// System-time decomposition: every finished, well-formed job spent
/// exactly its wait time plus its service time in the system.
pub proof fn lemma_system_time_decomposition(j: Job)
    requires
        j.wf(),
        j.finish_time is Some,
    ensures
        (j.spec_system_time() matches Some(s) && (j.spec_wait_time() matches Some(w) && s == w
            + j.service_time)),
{
}

} // verus!
