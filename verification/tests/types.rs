use healthkit::error::timed_out_message;
use healthkit::{CheckResult, Duration, HealthCheckError, HealthStatus};

#[test]
fn health_status_is_healthy() {
    assert!(HealthStatus::Healthy.is_healthy());
    assert!(!HealthStatus::Degraded.is_healthy());
    assert!(!HealthStatus::Unhealthy.is_healthy());
}

#[test]
fn health_status_is_ready() {
    assert!(HealthStatus::Healthy.is_ready());
    assert!(HealthStatus::Degraded.is_ready());
    assert!(!HealthStatus::Unhealthy.is_ready());
}

#[test]
fn health_status_display() {
    assert_eq!(HealthStatus::Healthy.to_string(), "healthy");
    assert_eq!(HealthStatus::Degraded.to_string(), "degraded");
    assert_eq!(HealthStatus::Unhealthy.to_string(), "unhealthy");
}

#[test]
fn check_result_creation_and_is_healthy() {
    let result = CheckResult {
        name: "db".to_string(),
        status: HealthStatus::Healthy,
        message: None,
        duration: Duration::from_millis(5),
    };
    assert!(result.status.is_healthy());
    assert_eq!(result.name, "db");
    assert!(result.message.is_none());
}

#[test]
fn check_result_unhealthy() {
    let result = CheckResult {
        name: "redis".to_string(),
        status: HealthStatus::Unhealthy,
        message: Some("connection refused".to_string()),
        duration: Duration::from_millis(1),
    };
    assert!(!result.status.is_healthy());
    assert_eq!(result.message.as_deref(), Some("connection refused"));
}

#[test]
fn health_check_error_display() {
    let err = HealthCheckError::CheckFailed("disk full".to_string());
    assert_eq!(err.to_string(), "health check failed: disk full");

    let err = HealthCheckError::CheckPanicked("thread panic".to_string());
    assert_eq!(err.to_string(), "health check panicked: thread panic");

    let err = HealthCheckError::CheckTimedOut(Duration::from_secs(5));
    assert_eq!(err.to_string(), "health check timed out after 5s");

    let err = HealthCheckError::DependencyUnavailable("postgres".to_string());
    assert_eq!(err.to_string(), "dependency unavailable: postgres");

    let err = HealthCheckError::ShuttingDown;
    assert_eq!(err.to_string(), "service is shutting down");
}

#[test]
fn timed_out_message_names_the_deadline_in_its_own_unit() {
    let text = |d: Duration| HealthCheckError::CheckTimedOut(d).to_string();
    assert_eq!(text(Duration::from_millis(100)), "health check timed out after 100ms");
    assert_eq!(text(Duration::from_millis(1_500)), "health check timed out after 1.5s");
    assert_eq!(text(Duration::new(0, 250)), "health check timed out after 250ns");
}

#[test]
fn health_status_is_healthy_matches_display() {
    for status in [HealthStatus::Healthy, HealthStatus::Degraded, HealthStatus::Unhealthy] {
        match status {
            HealthStatus::Healthy => {
                assert!(status.is_healthy());
                assert_eq!(status.to_string(), "healthy");
            }
            HealthStatus::Degraded => {
                assert!(!status.is_healthy());
                assert!(status.is_ready());
                assert_eq!(status.to_string(), "degraded");
            }
            HealthStatus::Unhealthy => {
                assert!(!status.is_healthy());
                assert!(!status.is_ready());
                assert_eq!(status.to_string(), "unhealthy");
            }
        }
    }
}

#[test]
fn health_status_is_ready_consistency() {
    for status in [HealthStatus::Healthy, HealthStatus::Degraded, HealthStatus::Unhealthy] {
        assert_eq!(status.is_ready(), !matches!(status, HealthStatus::Unhealthy));
    }
}

#[test]
fn durations_count_nanoseconds() {
    assert_eq!(Duration::from_secs(5).as_nanos(), 5_000_000_000);
    assert_eq!(Duration::from_millis(1_234).as_nanos(), 1_234_000_000);
    assert_eq!(Duration::from_millis(1_234).as_secs(), 1);
    assert_eq!(Duration::from_millis(1_234).subsec_nanos(), 234_000_000);
    assert_eq!(Duration::from_millis(2_000), Duration::from_secs(2));
    assert!(Duration::from_millis(0).is_zero());
    assert!(!Duration::new(0, 1).is_zero());
    assert_eq!(Duration::new(1, 2_500_000_000), Duration::from_millis(3_500));
    assert_eq!(
        Duration::new(u64::MAX, 999_999_999).as_nanos(),
        u64::MAX as u128 * 1_000_000_000 + 999_999_999
    );
}

#[test]
fn timed_out_message_writes_the_deadline_it_is_given() {
    assert_eq!(timed_out_message("2s"), "health check timed out after 2s");
}
