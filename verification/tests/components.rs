//! Tests of the individual components: jobs, the FIFO queue, the server,
//! and the metrics collector.

use rustqueuesim::Job;
use rustqueuesim::JobQueue;
use rustqueuesim::Metrics;
use rustqueuesim::Server;

#[test]
fn wait_and_system_time_work() {
    let mut j = Job::new(1, 5, 3);
    j.mark_started(7);
    j.mark_finished(10);
    assert_eq!(j.wait_time(), Some(2));
    assert_eq!(j.system_time(), Some(5));
}

#[test]
fn unstarted_job_has_no_times() {
    let j = Job::new(4, 9, 2);
    assert_eq!(j.wait_time(), None);
    assert_eq!(j.system_time(), None);
}

#[test]
fn queue_preserves_order() {
    let mut q = JobQueue::new();
    q.push(Job::new(1, 0, 1));
    q.push(Job::new(2, 1, 1));
    q.push(Job::new(3, 2, 1));

    assert_eq!(q.pop().unwrap().id, 1);
    assert_eq!(q.pop().unwrap().id, 2);
    assert_eq!(q.pop().unwrap().id, 3);
}

#[test]
fn empty_queue_pops_nothing() {
    let mut q = JobQueue::new();
    assert!(q.is_empty());
    assert_eq!(q.len(), 0);
    assert!(q.pop().is_none());
    q.push(Job::new(1, 0, 1));
    assert!(!q.is_empty());
    assert_eq!(q.len(), 1);
}

#[test]
fn server_processes_job() {
    let mut server = Server::new();
    let mut job = Job::new(1, 0, 2);
    job.mark_started(0);
    server.start_job(job);

    // First tick should not finish anything.
    assert!(server.tick(1).is_none());

    // Second tick finishes the job.
    let done = server.tick(2).expect("job should be done by now");
    assert_eq!(done.id, 1);
}

#[test]
fn server_busy_exactly_while_owning_a_job() {
    let mut server = Server::new();
    assert!(!server.is_busy());
    let mut job = Job::new(7, 0, 2);
    job.mark_started(0);
    server.start_job(job);
    assert!(server.is_busy());
    assert!(server.tick(1).is_none());
    assert!(server.is_busy());
    assert!(server.tick(2).is_some());
    assert!(!server.is_busy());
}

#[test]
fn server_stamps_finish_time() {
    let mut server = Server::new();
    let mut job = Job::new(1, 0, 2);
    job.mark_started(0);
    server.start_job(job);
    assert!(server.tick(1).is_none());
    let done = server.tick(2).expect("service time of two ends on the second tick");
    assert_eq!(done.finish_time, Some(2));
    assert_eq!(done.system_time(), Some(2));
}

#[test]
fn metrics_compute_averages() {
    let mut m = Metrics::default();
    let mut j1 = Job::new(1, 0, 2);
    j1.mark_started(0);
    j1.mark_finished(2);

    let mut j2 = Job::new(2, 1, 3);
    j2.mark_started(3);
    j2.mark_finished(6);

    m.step(0, true, Some(j1));
    m.step(0, true, Some(j2));

    assert_eq!(m.total_jobs_completed, 2);
    let avg_wait = m.total_wait_time as f64 / m.total_jobs_completed as f64;
    assert!((avg_wait - 1.0).abs() < 1e-6);
}

#[test]
fn metrics_track_max_queue_len() {
    let mut m = Metrics::default();
    m.step(2, false, None);
    assert_eq!(m.max_queue_len, 2);
    m.step(5, true, None);
    assert_eq!(m.max_queue_len, 5);
    m.step(3, true, None);
    assert_eq!(m.max_queue_len, 5);
    assert_eq!(m.time_steps, 3);
    assert_eq!(m.busy_time, 2);
}

#[test]
fn metrics_count_arrivals() {
    let mut m = Metrics::default();
    m.record_arrival();
    m.record_arrival();
    assert_eq!(m.total_jobs_arrived, 2);
    assert_eq!(m.total_jobs_completed, 0);
}
