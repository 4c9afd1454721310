use sidex_app::performance::{PerformanceMonitor, WINDOW_SIZE};
use std::time::Duration;

fn ns(d: Duration) -> u128 {
    d.as_nanos()
}

#[test]
fn record_and_average_frame_time() {
    let mut pm = PerformanceMonitor::new();
    for _ in 0..10 {
        pm.record_frame_time(ns(Duration::from_millis(16)));
    }
    let avg = pm.average_frame_time();
    assert!(avg >= ns(Duration::from_millis(15)) && avg <= ns(Duration::from_millis(17)));
}

#[test]
fn window_evicts_old_samples() {
    let mut pm = PerformanceMonitor::new();
    for i in 0..(WINDOW_SIZE + 50) {
        pm.record_frame_time(ns(Duration::from_millis(i as u64)));
    }
    assert_eq!(pm.frame_times.len(), WINDOW_SIZE);
}

#[test]
fn p99_frame_time_works() {
    let mut pm = PerformanceMonitor::new();
    for _ in 0..99 {
        pm.record_frame_time(ns(Duration::from_millis(10)));
    }
    pm.record_frame_time(ns(Duration::from_millis(100)));
    let p99 = pm.p99_frame_time();
    assert!(p99 >= ns(Duration::from_millis(10)));
}

#[test]
fn is_performance_ok_under_budget() {
    let mut pm = PerformanceMonitor::new();
    for _ in 0..100 {
        pm.record_frame_time(ns(Duration::from_millis(10)));
    }
    assert!(pm.is_performance_ok());
}

#[test]
fn is_performance_bad_over_budget() {
    let mut pm = PerformanceMonitor::new();
    for _ in 0..100 {
        pm.record_frame_time(ns(Duration::from_millis(50)));
    }
    assert!(!pm.is_performance_ok());
}

#[test]
fn reset_clears_all() {
    let mut pm = PerformanceMonitor::new();
    pm.record_frame_time(ns(Duration::from_millis(16)));
    pm.record_render_time(ns(Duration::from_millis(5)));
    pm.record_event_processing_time(ns(Duration::from_millis(2)));
    pm.reset();
    assert_eq!(pm.sample_count(), 0);
    assert_eq!(pm.max_frame_time, 0);
}

#[test]
fn mean_divides_as_duration_does() {
    let mut pm = PerformanceMonitor::default();
    assert_eq!(pm.average_frame_time(), 0);
    pm.record_frame_time(1_000_000_000);
    pm.record_frame_time(1);
    pm.record_frame_time(1);
    let expected = (Duration::from_nanos(1_000_000_002) / 3).as_nanos();
    assert_eq!(pm.average_frame_time(), expected);
    assert_eq!(pm.max_frame_time, 1_000_000_000);
}

#[test]
fn percentiles_and_other_windows() {
    let mut pm = PerformanceMonitor::new();
    for i in (1..=100u128).rev() {
        pm.record_frame_time(i);
    }
    assert_eq!(pm.p95_frame_time(), 96);
    assert_eq!(pm.p99_frame_time(), 100);
    assert_eq!(PerformanceMonitor::new().p99_frame_time(), 0);
    pm.record_render_time(10);
    pm.record_render_time(20);
    assert_eq!(pm.average_render_time(), 15);
    pm.record_event_processing_time(7);
    assert_eq!(pm.average_event_time(), 7);
    pm.update_memory_usage(1024);
    assert_eq!(pm.memory_usage, 1024);
    pm.reset();
    assert_eq!(pm.memory_usage, 1024);
}

#[test]
fn new_monitor_is_empty() {
    let pm = PerformanceMonitor::new();
    assert_eq!(pm.sample_count(), 0);
    assert_eq!(pm.average_frame_time(), 0);
    assert_eq!(pm.memory_usage as f64 / (1024.0 * 1024.0), 0.0);
}
