//! Tests of whole simulation runs: configuration validation, determinism
//! under a fixed seed, and exact outcomes in the corner cases where the
//! random draws are forced.

use rustqueuesim::JobSource;
use rustqueuesim::SimConfig;
use rustqueuesim::SimError;
use rustqueuesim::Simulator;

fn config(
    total_time: u64,
    arrival_num: u32,
    arrival_den: u32,
    min_service_time: u64,
    max_service_time: u64,
    seed: u64,
) -> SimConfig {
    SimConfig { total_time, arrival_num, arrival_den, min_service_time, max_service_time, seed }
}

#[test]
fn invalid_configurations_are_rejected() {
    // Numerator above denominator: probability above one.
    let r = Simulator::new(config(10, 3, 2, 1, 5, 42));
    assert_eq!(r.err(), Some(SimError::InvalidConfiguration));
    // Zero denominator: no probability at all.
    let r = Simulator::new(config(10, 0, 0, 1, 5, 42));
    assert_eq!(r.err(), Some(SimError::InvalidConfiguration));
    // Inverted service range.
    let r = Simulator::new(config(10, 1, 2, 5, 1, 42));
    assert_eq!(r.err(), Some(SimError::InvalidConfiguration));
    // A valid configuration passes.
    assert!(Simulator::new(config(10, 1, 2, 1, 5, 42)).is_ok());
}

#[test]
fn job_source_rejects_invalid_configurations() {
    assert_eq!(JobSource::new(42, 3, 2, 1, 5).err(), Some(SimError::InvalidConfiguration));
    assert_eq!(JobSource::new(42, 1, 0, 1, 5).err(), Some(SimError::InvalidConfiguration));
    assert_eq!(JobSource::new(42, 1, 2, 5, 1).err(), Some(SimError::InvalidConfiguration));
    assert!(JobSource::new(42, 1, 2, 1, 5).is_ok());
}

#[test]
fn zero_arrival_probability_yields_empty_run() {
    let mut sim = Simulator::new(config(200, 0, 1, 1, 5, 42)).unwrap();
    sim.run();
    let m = sim.metrics;
    assert_eq!(m.time_steps, 200);
    assert_eq!(m.total_jobs_arrived, 0);
    assert_eq!(m.total_jobs_completed, 0);
    assert_eq!(m.busy_time, 0);
    assert_eq!(m.max_queue_len, 0);
}

#[test]
fn same_seed_gives_identical_runs() {
    let c = config(500, 3, 10, 1, 5, 42);
    let mut a = Simulator::new(c).unwrap();
    let mut b = Simulator::new(c).unwrap();
    a.run();
    b.run();
    assert_eq!(a.metrics.total_jobs_arrived, b.metrics.total_jobs_arrived);
    assert_eq!(a.metrics.total_jobs_completed, b.metrics.total_jobs_completed);
    assert_eq!(a.metrics.total_wait_time, b.metrics.total_wait_time);
    assert_eq!(a.metrics.total_system_time, b.metrics.total_system_time);
    assert_eq!(a.metrics.max_queue_len, b.metrics.max_queue_len);
    assert_eq!(a.metrics.busy_time, b.metrics.busy_time);
    assert_eq!(a.metrics.time_steps, b.metrics.time_steps);
}

#[test]
fn utilization_stays_within_bounds() {
    for seed in [1u64, 7, 42, 1234] {
        let mut sim = Simulator::new(config(300, 9, 10, 1, 4, seed)).unwrap();
        sim.run();
        let m = sim.metrics;
        assert_eq!(m.time_steps, 300);
        assert!(m.busy_time <= m.time_steps);
        let utilization = m.busy_time as f64 / m.time_steps as f64;
        assert!((0.0..=1.0).contains(&utilization));
    }
}

#[test]
fn forced_arrivals_and_fixed_service_run_exactly() {
    // An arrival probability of one and a service range of exactly two
    // ticks force every draw, so the whole run is known in advance: a job
    // arrives on each of the ten ticks, and one finishes every other tick
    // starting at tick two.
    let mut sim = Simulator::new(config(10, 1, 1, 2, 2, 42)).unwrap();
    sim.run();
    let m = sim.metrics;
    assert_eq!(m.time_steps, 10);
    assert_eq!(m.total_jobs_arrived, 10);
    assert_eq!(m.total_jobs_completed, 5);
    // Waits: 0, 1, 2, 3, 4. System times: 2, 3, 4, 5, 6.
    assert_eq!(m.total_wait_time, 10);
    assert_eq!(m.total_system_time, 20);
    // The server idles only on the ticks where a job just finished.
    assert_eq!(m.busy_time, 5);
    // The backlog grows by one every two ticks.
    assert_eq!(m.max_queue_len, 5);
}
