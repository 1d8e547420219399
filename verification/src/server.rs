//! The server: a two-state machine that is either idle or processing
//! exactly one job. The busy state owns its job together with the remaining
//! service countdown, so "busy with no job" is unrepresentable.

use vstd::prelude::*;

use crate::job::Job;

verus! {

/// What the server is doing: nothing, or exactly one job with the number of
/// ticks of service it still needs.
#[derive(Debug, Clone, Copy)]
pub enum ServerState {
    Idle,
    Busy { job: Job, remaining_time: u64 },
}

/// The server state after one tick: idle stays idle; a busy server counts
/// one tick down (clamped at zero) and becomes idle when the countdown
/// reaches zero.
pub open spec fn server_after_tick(s: ServerState) -> ServerState {
    match s {
        ServerState::Idle => ServerState::Idle,
        ServerState::Busy { job, remaining_time } => {
            let rem = if remaining_time >= 1 {
                (remaining_time - 1) as u64
            } else {
                0u64
            };
            if rem == 0 {
                ServerState::Idle
            } else {
                ServerState::Busy { job, remaining_time: rem }
            }
        },
    }
}

/// The job that finishes on a tick with reference time `tref`, if any: the
/// owned job, marked finished at `tref`, exactly when the service
/// countdown runs out on this tick.
pub open spec fn finished_on_tick(s: ServerState, tref: u64) -> Option<Job> {
    match s {
        ServerState::Idle => None,
        ServerState::Busy { job, remaining_time } => {
            if remaining_time <= 1 {
                Some(Job { finish_time: Some(tref), ..job })
            } else {
                None
            }
        },
    }
}

/// Tracks what the server is currently doing.
#[derive(Debug)]
pub struct Server {
    state: ServerState,
}

impl View for Server {
    type V = ServerState;

    closed spec fn view(&self) -> ServerState {
        self.state
    }
}

impl Default for Server {
    /// An idle server.
    fn default() -> (s: Server)
        ensures
            s@ == ServerState::Idle,
    {
        Server::new()
    }
}

impl Server {
    /// Start with an idle server.
    pub fn new() -> (s: Server)
        ensures
            s@ == ServerState::Idle,
    {
        Server { state: ServerState::Idle }
    }

    /// Whether the server currently owns a job: true exactly in the busy
    /// state, which holds exactly one job.
    pub fn is_busy(&self) -> (r: bool)
        ensures
            r == (self@ is Busy),
    {
        match self.state {
            ServerState::Busy { .. } => true,
            ServerState::Idle => false,
        }
    }

    /// Hand a job to an idle server and start processing it; the remaining
    /// service countdown starts at the job's full service demand. Calling
    /// this on a busy server is a caller error.
    pub fn start_job(&mut self, job: Job)
        requires
            old(self)@ is Idle,
            job.finish_time is None,
        ensures
            final(self)@ == (ServerState::Busy { job, remaining_time: job.service_time }),
    {
        self.state = ServerState::Busy { remaining_time: job.service_time, job };
    }

    /// Move time forward by one step. When idle this does nothing. When
    /// busy it decrements the remaining service time by one (clamped at
    /// zero); if that reaches zero, the owned job is marked finished at
    /// `current_time`, the server becomes idle, and the finished job is
    /// returned so its statistics can be recorded.
    pub fn tick(&mut self, current_time: u64) -> (r: Option<Job>)
        requires
            old(self)@ matches ServerState::Busy { job, .. } ==> job.finish_time is None,
        ensures
            final(self)@ == server_after_tick(old(self)@),
            r == finished_on_tick(old(self)@, current_time),
    {
        match self.state {
            ServerState::Idle => None,
            ServerState::Busy { job, remaining_time } => {
                let rem = if remaining_time >= 1 {
                    remaining_time - 1
                } else {
                    0
                };
                if rem == 0 {
                    let mut finished = job;
                    finished.mark_finished(current_time);
                    self.state = ServerState::Idle;
                    Some(finished)
                } else {
                    self.state = ServerState::Busy { job, remaining_time: rem };
                    None
                }
            },
        }
    }
}

} // verus!
