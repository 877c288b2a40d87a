use gaudi_rust_bindings::stats::{new_job_stats, JobStats};

#[test]
fn test_job_stats() {
    let mut stats = new_job_stats();
    assert_eq!(stats.events_count(), 0);
    stats.add_event();
    assert_eq!(stats.events_count(), 1);
}

#[test]
fn events_count_after_many_events() {
    let mut stats = JobStats::new();
    for _ in 0..25 {
        stats.add_event();
    }
    assert_eq!(stats.events_count(), 25);
}
