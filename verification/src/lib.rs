//! A discrete-time, single-server FIFO queueing simulation.
//!
//! Jobs arrive according to a per-tick Bernoulli trial, wait in a FIFO
//! queue, are served one at a time by a single server, and are folded
//! into aggregate metrics (wait time, system time, utilization, queue
//! depth) once finished. The whole run is driven by a seeded
//! pseudo-random source, so a run is reproducible from its seed.

pub mod job;
pub mod metrics;
pub mod queue;
pub mod server;
pub mod sim;
pub mod source;

pub use job::Job;
pub use metrics::Metrics;
pub use queue::JobQueue;
pub use server::{Server, ServerState};
pub use sim::{SimConfig, Simulator};
pub use source::{JobSource, SimError};
