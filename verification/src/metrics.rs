//! Running aggregate of per-tick observations: how many jobs arrived and
//! completed, the accumulated wait and system times of completed jobs, the
//! deepest queue seen, and how many ticks the server spent busy.

use vstd::prelude::*;

use crate::job::Job;

verus! {

/// Aggregate counters for one simulation run. All counters are
/// monotonically non-decreasing; ratios derived from them (averages,
/// utilization) are recomputed on demand and never stored.
#[derive(Debug, Clone, Copy)]
pub struct Metrics {
    pub total_jobs_arrived: u64,
    pub total_jobs_completed: u64,
    pub total_wait_time: u64,
    pub total_system_time: u64,
    pub max_queue_len: u64,
    pub busy_time: u64,
    pub time_steps: u64,
}

/// What a finished job adds to the accumulated wait time: its wait time,
/// or zero when that is absent.
pub open spec fn wait_contrib(j: Job) -> u64 {
    match j.spec_wait_time() {
        Some(w) => w,
        None => 0,
    }
}

/// What a finished job adds to the accumulated system time: its system
/// time, or zero when that is absent.
pub open spec fn system_contrib(j: Job) -> u64 {
    match j.spec_system_time() {
        Some(s) => s,
        None => 0,
    }
}

/// The collector's counters after one per-tick observation: the tick count
/// grows by one, the maximum queue length absorbs the new observation, the
/// busy count grows when the server was busy, and a finished job bumps the
/// completion count and both accumulated times.
pub open spec fn spec_step(
    m: Metrics,
    queue_len: u64,
    server_busy: bool,
    finished_job: Option<Job>,
) -> Metrics {
    let stepped = Metrics {
        time_steps: (m.time_steps + 1) as u64,
        max_queue_len: if queue_len > m.max_queue_len {
            queue_len
        } else {
            m.max_queue_len
        },
        busy_time: if server_busy {
            (m.busy_time + 1) as u64
        } else {
            m.busy_time
        },
        ..m
    };
    match finished_job {
        Some(j) => Metrics {
            total_jobs_completed: (m.total_jobs_completed + 1) as u64,
            total_wait_time: (m.total_wait_time + wait_contrib(j)) as u64,
            total_system_time: (m.total_system_time + system_contrib(j)) as u64,
            ..stepped
        },
        None => stepped,
    }
}

impl Default for Metrics {
    /// Start with every counter at zero.
    fn default() -> (m: Metrics)
        ensures
            m == (Metrics {
                total_jobs_arrived: 0,
                total_jobs_completed: 0,
                total_wait_time: 0,
                total_system_time: 0,
                max_queue_len: 0,
                busy_time: 0,
                time_steps: 0,
            }),
    {
        Metrics {
            total_jobs_arrived: 0,
            total_jobs_completed: 0,
            total_wait_time: 0,
            total_system_time: 0,
            max_queue_len: 0,
            busy_time: 0,
            time_steps: 0,
        }
    }
}

impl Metrics {
    /// Fold one simulated tick into the counters: the observed queue
    /// length, whether the server was busy after dispatch, and the job that
    /// finished on this tick, if any. Called exactly once per tick.
    pub fn step(&mut self, queue_len: usize, server_busy: bool, finished_job: Option<Job>)
        requires
            old(self).time_steps < u64::MAX,
            server_busy ==> old(self).busy_time < u64::MAX,
            finished_job matches Some(j) ==> {
                &&& old(self).total_jobs_completed < u64::MAX
                &&& old(self).total_wait_time + wait_contrib(j) <= u64::MAX
                &&& old(self).total_system_time + system_contrib(j) <= u64::MAX
            },
        ensures
            *final(self) == spec_step(*old(self), queue_len as u64, server_busy, finished_job),
    {
        self.time_steps = self.time_steps + 1;
        let observed = queue_len as u64;
        if observed > self.max_queue_len {
            self.max_queue_len = observed;
        }
        if server_busy {
            self.busy_time = self.busy_time + 1;
        }
        if let Some(job) = finished_job {
            self.total_jobs_completed = self.total_jobs_completed + 1;
            if let Some(w) = job.wait_time() {
                self.total_wait_time = self.total_wait_time + w;
            }
            if let Some(s) = job.system_time() {
                self.total_system_time = self.total_system_time + s;
            }
        }
    }

    /// Count one admitted job, before it is queued.
    pub fn record_arrival(&mut self)
        requires
            old(self).total_jobs_arrived < u64::MAX,
        ensures
            *final(self) == (Metrics {
                total_jobs_arrived: (old(self).total_jobs_arrived + 1) as u64,
                ..*old(self)
            }),
    {
        self.total_jobs_arrived = self.total_jobs_arrived + 1;
    }
}

/// The maximum queue length after observing `obs` on top of a previous
/// maximum `m0`: exactly how repeated `Metrics::step` calls update
/// `max_queue_len`.
pub open spec fn running_max(m0: u64, obs: Seq<u64>) -> u64
    decreases obs.len(),
{
    if obs.len() == 0 {
        m0
    } else {
        let prev = running_max(m0, obs.drop_last());
        if obs.last() > prev {
            obs.last()
        } else {
            prev
        }
    }
}

/// Monotonic max queue length: the running maximum is the maximum of the
/// starting value and every observation made so far, and it never decreases
/// as further observations arrive.
pub proof fn lemma_max_queue_len(m0: u64, obs: Seq<u64>)
    ensures
        running_max(m0, obs) >= m0,
        forall|i: int| 0 <= i < obs.len() ==> running_max(m0, obs) >= obs[i],
        forall|x: u64| #[trigger] running_max(m0, obs.push(x)) >= running_max(m0, obs),
    decreases obs.len(),
{
    if obs.len() > 0 {
        lemma_max_queue_len(m0, obs.drop_last());
        assert forall|i: int| 0 <= i < obs.len() implies running_max(m0, obs) >= obs[i] by {
            if i < obs.len() - 1 {
                assert(obs.drop_last()[i] == obs[i]);
            }
        }
    }
    assert forall|x: u64| #[trigger] running_max(m0, obs.push(x)) >= running_max(m0, obs) by {
        assert(obs.push(x).drop_last() =~= obs);
        assert(obs.push(x).last() == x);
    }
}

/// The collector after a run of `step` calls, one per observation: each
/// observation is a queue length, a busy flag, and the finished job, if
/// any.
pub open spec fn after_steps(m: Metrics, obs: Seq<(u64, bool, Option<Job>)>) -> Metrics
    decreases obs.len(),
{
    if obs.len() == 0 {
        m
    } else {
        let last = obs.last();
        spec_step(after_steps(m, obs.drop_last()), last.0, last.1, last.2)
    }
}

/// Over a whole run of `step` calls, `max_queue_len` equals the running
/// maximum of every observed queue length: with `lemma_max_queue_len`,
/// it dominates each observation and never decreases.
pub proof fn lemma_steps_track_running_max(m: Metrics, obs: Seq<(u64, bool, Option<Job>)>)
    ensures
        after_steps(m, obs).max_queue_len == running_max(
            m.max_queue_len,
            obs.map_values(|o: (u64, bool, Option<Job>)| o.0),
        ),
    decreases obs.len(),
{
    let lens = obs.map_values(|o: (u64, bool, Option<Job>)| o.0);
    if obs.len() == 0 {
        assert(lens.len() == 0);
    } else {
        lemma_steps_track_running_max(m, obs.drop_last());
        assert(obs.drop_last().map_values(|o: (u64, bool, Option<Job>)| o.0) =~= lens.drop_last());
        assert(lens.last() == obs.last().0);
    }
}

/// Utilization bound: one step preserves `busy_time <= time_steps`, so the
/// utilization ratio `busy_time / time_steps` always lies between zero and
/// one (and is taken as zero while `time_steps` is zero).
pub proof fn lemma_utilization_bound(
    m: Metrics,
    queue_len: u64,
    server_busy: bool,
    finished_job: Option<Job>,
)
    requires
        m.busy_time <= m.time_steps,
        m.time_steps < u64::MAX,
    ensures
        spec_step(m, queue_len, server_busy, finished_job).busy_time <= spec_step(
            m,
            queue_len,
            server_busy,
            finished_job,
        ).time_steps,
{
}

} // verus!
