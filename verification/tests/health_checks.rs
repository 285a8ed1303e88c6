use resize_server::health::{
    health_http_status, snapshot_of, HealthMonitor, HealthStatus, MemorySample,
};
use resize_server::response::health_body;

fn sample(total: u64, used: u64, cpu: u32) -> MemorySample {
    MemorySample { total_memory_kb: total, used_memory_kb: used, cpu_usage_percent: cpu }
}

#[test]
fn below_threshold_is_healthy() {
    let s = snapshot_of(10, &sample(1000, 250, 3));
    assert_eq!(s.status, HealthStatus::Healthy);
    assert_eq!(s.memory_usage_percent, 25);
    assert_eq!(health_http_status(&s), 200);
}

#[test]
fn above_threshold_is_unhealthy() {
    let s = snapshot_of(10, &sample(1000, 950, 3));
    assert_eq!(s.status, HealthStatus::Unhealthy);
    assert_eq!(s.memory_usage_percent, 95);
    assert_eq!(health_http_status(&s), 503);
}

#[test]
fn threshold_is_strict() {
    // Exactly 90 percent used is already unhealthy; just below is not.
    let at = snapshot_of(0, &sample(1000, 900, 0));
    assert_eq!(at.status, HealthStatus::Unhealthy);
    let below = snapshot_of(0, &sample(1000, 899, 0));
    assert_eq!(below.status, HealthStatus::Healthy);
}

#[test]
fn zero_total_memory_is_unhealthy() {
    let s = snapshot_of(0, &sample(0, 0, 0));
    assert_eq!(s.status, HealthStatus::Unhealthy);
    assert_eq!(s.memory_usage_percent, 0);
}

#[test]
fn snapshot_is_reused_within_the_interval() {
    let mut m = HealthMonitor::new(0, &sample(1000, 100, 1));
    assert!(!m.needs_refresh(999));
    let first = m.get_snapshot(500, None);
    let second = m.get_snapshot(999, None);
    assert_eq!(first, second);
    assert_eq!(first.timestamp_ms, 0);
    assert_eq!(first.used_memory_kb, 100);
}

#[test]
fn snapshot_refreshes_after_the_interval() {
    let mut m = HealthMonitor::new(0, &sample(1000, 100, 1));
    assert!(m.needs_refresh(1000));
    let s = m.get_snapshot(1500, Some(sample(1000, 950, 2)));
    assert_eq!(s.timestamp_ms, 1500);
    assert_eq!(s.used_memory_kb, 950);
    assert_eq!(s.status, HealthStatus::Unhealthy);
    // The refreshed snapshot is now the stored one.
    let again = m.get_snapshot(1600, None);
    assert_eq!(again, s);
}

#[test]
fn health_document_is_rendered_exactly() {
    let s = snapshot_of(1234, &sample(1000, 250, 7));
    let body = health_body(&s);
    assert_eq!(
        body,
        "{\"status\":\"healthy\",\"timestamp\":1234,\"metrics\":{\"memory_usage_percent\":25,\"total_memory_kb\":1000,\"used_memory_kb\":250,\"cpu_usage_percent\":7}}"
    );
}

#[test]
fn unhealthy_document_reports_the_word() {
    let s = snapshot_of(1, &sample(100, 99, 0));
    let body = health_body(&s);
    assert!(body.starts_with("{\"status\":\"unhealthy\","));
}
