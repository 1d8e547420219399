//! The simulation engine: per tick it samples an arrival, dispatches the
//! queue head to an idle server, advances the server by one tick, and
//! feeds the observations into the metrics collector — in exactly that
//! order, for a fixed number of ticks. The whole run is modelled by a
//! pure function of the configuration, which is what makes runs with the
//! same seed reproducible.

use vstd::prelude::*;

use crate::job::Job;
use crate::metrics::{spec_step, Metrics};
use crate::queue::JobQueue;
use crate::server::{finished_on_tick, server_after_tick, Server, ServerState};
use crate::source::{arrival_draw, serv_draw, JobSource, SimError, SourceModel};

verus! {

/// Settings for a simulation run. The per-tick arrival probability is
/// `arrival_num` in `arrival_den`.
#[derive(Debug, Clone, Copy, PartialEq, Eq, Structural)]
pub struct SimConfig {
    /// Number of discrete ticks simulated.
    pub total_time: u64,
    /// Numerator of the per-tick arrival probability.
    pub arrival_num: u32,
    /// Denominator of the per-tick arrival probability.
    pub arrival_den: u32,
    /// Smallest service duration that can be drawn.
    pub min_service_time: u64,
    /// Largest service duration that can be drawn (inclusive).
    pub max_service_time: u64,
    /// Seed for the pseudo-random source.
    pub seed: u64,
}

impl SimConfig {
    /// A configuration is valid when the arrival probability is a real
    /// probability in [0, 1] and the service range is not inverted.
    pub open spec fn valid(self) -> bool {
        &&& self.arrival_den > 0
        &&& self.arrival_num <= self.arrival_den
        &&& self.min_service_time <= self.max_service_time
    }
}

impl Default for SimConfig {
    /// One thousand ticks, a three-in-ten arrival chance per tick, one to
    /// five ticks of service, and a fixed seed.
    fn default() -> (c: SimConfig)
        ensures
            c == (SimConfig {
                total_time: 1000,
                arrival_num: 3,
                arrival_den: 10,
                min_service_time: 1,
                max_service_time: 5,
                seed: 42,
            }),
    {
        SimConfig {
            total_time: 1000,
            arrival_num: 3,
            arrival_den: 10,
            min_service_time: 1,
            max_service_time: 5,
            seed: 42,
        }
    }
}

/// The spec-level state of a running simulation: the metrics so far, the
/// queued jobs in order, the server state, the next unused job id, and
/// the draws the random source has made so far.
#[verifier::ext_equal]
pub ghost struct SimModel {
    pub metrics: Metrics,
    pub queue: Seq<Job>,
    pub server: ServerState,
    pub next_job_id: u64,
    pub hist: Seq<bool>,
}

/// The state of a freshly constructed simulation: zeroed metrics, empty
/// queue, idle server, first job id zero, and no draws made.
pub open spec fn init_model() -> SimModel {
    SimModel {
        metrics: Metrics {
            total_jobs_arrived: 0,
            total_jobs_completed: 0,
            total_wait_time: 0,
            total_system_time: 0,
            max_queue_len: 0,
            busy_time: 0,
            time_steps: 0,
        },
        queue: Seq::empty(),
        server: ServerState::Idle,
        next_job_id: 0,
        hist: Seq::empty(),
    }
}

/// What one tick at time `t` does to the simulation state, in the fixed
/// order the engine follows: sample an arrival decision (and, on arrival,
/// a service duration, a fresh job queued at the tail, and an arrival
/// record); dispatch the queue head to an idle server, marking it started
/// at `t`; advance the server by one tick with reference time `t + 1`;
/// and fold the post-dispatch queue length, the busy flag, and any
/// finished job into the metrics.
pub open spec fn tick_model(c: SimConfig, m: SimModel, t: u64) -> SimModel {
    let arrives = arrival_draw(
        c.seed,
        c.arrival_num,
        c.arrival_den,
        c.min_service_time,
        c.max_service_time,
        m.hist,
    );
    let hist_a = m.hist.push(true);
    let service = serv_draw(
        c.seed,
        c.arrival_num,
        c.arrival_den,
        c.min_service_time,
        c.max_service_time,
        hist_a,
    );
    let hist1 = if arrives {
        hist_a.push(false)
    } else {
        hist_a
    };
    let queue1 = if arrives {
        m.queue.push(
            Job {
                id: m.next_job_id,
                arrival_time: t,
                service_time: service,
                start_service_time: None,
                finish_time: None,
            },
        )
    } else {
        m.queue
    };
    let next_id1 = if arrives {
        (m.next_job_id + 1) as u64
    } else {
        m.next_job_id
    };
    let metrics1 = if arrives {
        Metrics { total_jobs_arrived: (m.metrics.total_jobs_arrived + 1) as u64, ..m.metrics }
    } else {
        m.metrics
    };
    let dispatch = m.server is Idle && queue1.len() > 0;
    let server1 = if dispatch {
        let started = Job { start_service_time: Some(t), ..queue1[0] };
        ServerState::Busy { job: started, remaining_time: started.service_time }
    } else {
        m.server
    };
    let queue2 = if dispatch {
        queue1.subrange(1, queue1.len() as int)
    } else {
        queue1
    };
    let server2 = server_after_tick(server1);
    let finished = finished_on_tick(server1, (t + 1) as u64);
    let metrics2 = spec_step(metrics1, queue2.len() as u64, server2 is Busy, finished);
    SimModel {
        metrics: metrics2,
        queue: queue2,
        server: server2,
        next_job_id: next_id1,
        hist: hist1,
    }
}

/// The simulation state after running ticks `t`, `t + 1`, ..., up to but
/// not including `c.total_time`, starting from state `m`.
pub open spec fn run_model(c: SimConfig, m: SimModel, t: u64) -> SimModel
    decreases c.total_time - t,
{
    if t < c.total_time {
        run_model(c, tick_model(c, m, t), (t + 1) as u64)
    } else {
        m
    }
}

/// A job still waiting in the queue at a state reached before tick `t`:
/// it arrived on an earlier tick (or this one) and is neither started nor
/// finished.
spec fn queued_ok(j: Job, t: u64) -> bool {
    &&& j.arrival_time <= t
    &&& j.start_service_time is None
    &&& j.finish_time is None
}

/// The job a busy server owns at a state reached before tick `t`: started
/// no later than the last tick, not yet finished, with a positive
/// countdown that will stamp its finish exactly its service time after
/// its start.
spec fn busy_ok(j: Job, rem: u64, t: u64) -> bool {
    &&& (j.start_service_time matches Some(st) && {
        &&& j.arrival_time <= st <= t
        &&& st + j.service_time == t + rem
    })
    &&& j.finish_time is None
    &&& rem >= 1
}

/// Everything the engine keeps true of its state between ticks, with `t`
/// the next tick to run: the counters track the tick index, every job is
/// accounted for exactly once (still queued, in service, or completed),
/// and the accumulated times are bounded so that no counter can overflow
/// within a horizon of at most `0xffff_ffff` ticks.
spec fn sim_inv(c: SimConfig, m: SimModel, t: u64) -> bool {
    &&& c.valid()
    &&& c.total_time <= 0xffff_ffff
    &&& t <= c.total_time
    &&& m.metrics.time_steps == t
    &&& m.metrics.total_jobs_arrived == m.next_job_id
    &&& m.next_job_id <= t
    &&& m.metrics.busy_time <= t
    &&& m.metrics.total_jobs_completed <= t
    &&& m.metrics.total_wait_time <= 0xffff_ffff * m.metrics.total_jobs_completed
    &&& m.metrics.total_system_time <= 0xffff_ffff * m.metrics.total_jobs_completed
    &&& m.queue.len() + (if m.server is Busy {
        1int
    } else {
        0int
    }) + m.metrics.total_jobs_completed == m.next_job_id
    &&& forall|i: int| 0 <= i < m.queue.len() ==> queued_ok(#[trigger] m.queue[i], t)
    &&& (m.server matches ServerState::Busy { job, remaining_time } ==> busy_ok(
        job,
        remaining_time,
        t,
    ))
}

/// Central simulator: owns the queue, the server, the random source, the
/// metrics, and the run configuration for one run.
pub struct Simulator {
    pub config: SimConfig,
    pub metrics: Metrics,
    queue: JobQueue,
    server: Server,
    source: JobSource,
    next_job_id: u64,
}

impl View for Simulator {
    type V = SimModel;

    closed spec fn view(&self) -> SimModel {
        SimModel {
            metrics: self.metrics,
            queue: self.queue@,
            server: self.server@,
            next_job_id: self.next_job_id,
            hist: self.source@.hist,
        }
    }
}

impl Simulator {
    /// The configuration this simulator was built from.
    pub closed spec fn spec_config(self) -> SimConfig {
        self.config
    }

    /// The random source was built from this simulator's own (valid)
    /// configuration.
    pub closed spec fn wf(self) -> bool {
        &&& self.config.valid()
        &&& self.source@ == (SourceModel {
            seed: self.config.seed,
            arrival_num: self.config.arrival_num,
            arrival_den: self.config.arrival_den,
            min_service: self.config.min_service_time,
            max_service: self.config.max_service_time,
            hist: self.source@.hist,
        })
    }

    /// Build a new simulator from a config: zeroed metrics, empty queue,
    /// idle server, and a random source seeded from the configuration.
    /// Fails exactly on an invalid configuration.
    pub fn new(config: SimConfig) -> (r: Result<Simulator, SimError>)
        ensures
            r is Ok <==> config.valid(),
            (r matches Ok(s) ==> s.wf() && s.spec_config() == config && s@ == init_model()),
            (r matches Err(e) ==> e == SimError::InvalidConfiguration),
    {
        let source = match JobSource::new(
            config.seed,
            config.arrival_num,
            config.arrival_den,
            config.min_service_time,
            config.max_service_time,
        ) {
            Ok(src) => src,
            Err(e) => {
                return Err(e);
            },
        };
        let sim = Simulator {
            config,
            metrics: Metrics::default(),
            queue: JobQueue::new(),
            server: Server::new(),
            source,
            next_job_id: 0,
        };
        proof {
            assert(sim@ =~= init_model());
        }
        Ok(sim)
    }

    /// One tick of the fixed per-tick sequence, at time `t`.
    fn step_tick(&mut self, Ghost(c): Ghost<SimConfig>, t: u64)
        requires
            old(self).wf(),
            old(self).spec_config() == c,
            sim_inv(c, old(self)@, t),
            t < c.total_time,
        ensures
            final(self).wf(),
            final(self).spec_config() == c,
            final(self)@ == tick_model(c, old(self)@, t),
            sim_inv(c, final(self)@, (t + 1) as u64),
    {
        // 1. Chance of a new job arriving at this tick.
        let arrives = self.source.sample_arrival();
        if arrives {
            let service_time = self.source.sample_service();
            let job = Job::new(self.next_job_id, t, service_time);
            self.next_job_id = self.next_job_id + 1;
            self.queue.push(job);
            self.metrics.record_arrival();
        }
        // 2. If the server is free, hand it the next waiting job.
        if !self.server.is_busy() {
            if let Some(mut job) = self.queue.pop() {
                job.mark_started(t);
                self.server.start_job(job);
            }
        }
        // 3. Advance the server; completions are stamped at the tick
        // boundary after this unit of work.
        let finished = self.server.tick(t + 1);
        // 4. Fold this tick's observations into the metrics.
        self.metrics.step(self.queue.len(), self.server.is_busy(), finished);
        proof {
            assert(self@ =~= tick_model(c, old(self)@, t));
        }
    }

    /// Run the entire simulation from `t = 0` to `t = total_time`,
    /// advancing exactly one tick per iteration and stopping
    /// unconditionally at the horizon. The final state — metrics included
    /// — is exactly the model's run: a pure function of the
    /// configuration, so two runs with identical configurations produce
    /// identical results. The horizon bound keeps every counter within
    /// `u64`.
    pub fn run(&mut self)
        requires
            old(self).wf(),
            old(self)@ == init_model(),
            old(self).spec_config().total_time <= 0xffff_ffff,
        ensures
            final(self).wf(),
            final(self).spec_config() == old(self).spec_config(),
            final(self)@ == run_model(old(self).spec_config(), init_model(), 0),
            final(self)@.metrics.busy_time <= final(self)@.metrics.time_steps,
            final(self)@.metrics.time_steps == old(self).spec_config().total_time,
            final(self)@.metrics.total_jobs_completed <= final(self)@.metrics.total_jobs_arrived,
    {
        let ghost c = self.config;
        let ghost m0 = self@;
        let total = self.config.total_time;
        let mut t: u64 = 0;
        while t < total
            invariant
                self.wf(),
                self.config == c,
                total == c.total_time,
                t <= total,
                sim_inv(c, self@, t),
                run_model(c, m0, 0) == run_model(c, self@, t),
            decreases total - t,
        {
            self.step_tick(Ghost(c), t);
            t = t + 1;
        }
    }
}

/// Determinism: the run is a pure function of the configuration, so two
/// simulators built from identical configurations (same seed included)
/// traverse identical states and end with identical metrics.
pub proof fn lemma_determinism(c: SimConfig, m1: SimModel, m2: SimModel)
    requires
        m1 == init_model(),
        m2 == init_model(),
    ensures
        run_model(c, m1, 0) == run_model(c, m2, 0),
{
}

/// A state no job has ever entered: nothing arrived, nothing completed,
/// the server was never busy, and the queue was never observed non-empty.
pub open spec fn quiescent(m: SimModel) -> bool {
    &&& m.metrics.total_jobs_arrived == 0
    &&& m.metrics.total_jobs_completed == 0
    &&& m.metrics.busy_time == 0
    &&& m.metrics.max_queue_len == 0
    &&& m.queue.len() == 0
    &&& m.server is Idle
}

/// Zero arrival probability: with a zero arrival numerator, a run of any
/// length admits no job, completes none, and never makes the server busy
/// — so the utilization is zero.
pub proof fn lemma_zero_arrival_prob(c: SimConfig, m: SimModel, t: u64)
    requires
        c.arrival_num == 0,
        quiescent(m),
    ensures
        quiescent(run_model(c, m, t)),
    decreases c.total_time - t,
{
    if t < c.total_time {
        let m1 = tick_model(c, m, t);
        assert(quiescent(m1));
        lemma_zero_arrival_prob(c, m1, (t + 1) as u64);
    }
}

} // verus!

