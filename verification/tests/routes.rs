use healthkit::axum::{
    aggregate_status, detailed_handler, detailed_route, detailed_route_with, liveness_route,
    ping_route, readiness_handler, readiness_route, readiness_route_with, readiness_status_code,
    startup_checks, startup_handler, startup_results, startup_route, startup_route_for_group, Body, Handler,
    HealthState, ReadinessConfig, Response, StartupState, StatusCode,
};
use healthkit::registry::{CheckRun, Outcome};
use healthkit::{CheckResult, Duration, HealthCheckError, HealthRegistry, HealthStatus};

fn registry_with(names: &[&str]) -> HealthRegistry<()> {
    let mut registry = HealthRegistry::new();
    for name in names {
        registry.add_check(name, ());
    }
    registry
}

fn ok(status: HealthStatus) -> CheckRun {
    CheckRun {
        outcome: Outcome::Finished(Ok(status)),
        elapsed: Duration::from_millis(1),
    }
}

fn failing() -> CheckRun {
    CheckRun {
        outcome: Outcome::Finished(Err(HealthCheckError::CheckFailed(
            "dependency down".to_string(),
        ))),
        elapsed: Duration::from_millis(1),
    }
}

fn readiness(response: Response) -> (HealthStatus, Vec<CheckResult>) {
    match response.body {
        Body::Readiness(body) => (body.status, body.checks),
        other => panic!("expected readiness, got {other:?}"),
    }
}

fn startup(response: Response) -> (u16, HealthStatus) {
    match response.body {
        Body::Health(body) => (response.status.as_u16(), body.status),
        other => panic!("expected health, got {other:?}"),
    }
}

fn answer_startup(
    state: &StartupState<()>,
    registry: &HealthRegistry<()>,
    runs: &[CheckRun],
) -> Response {
    startup_handler(&startup_results(state, registry, runs))
}

#[test]
fn ping_route_returns_constant_ok_body() {
    let res = ping_route().respond();
    assert_eq!(res.status, StatusCode::OK);
    match res.body {
        Body::Text { content_type, text } => {
            assert_eq!(text, "OK");
            assert_eq!(content_type, "text/plain; charset=utf-8");
        }
        other => panic!("expected text, got {other:?}"),
    }
}

#[test]
fn liveness_route_returns_200_with_healthy_status() {
    let res = liveness_route().respond();
    assert_eq!(res.status.as_u16(), 200);
    match res.body {
        Body::Liveness(body) => assert_eq!(body.status, HealthStatus::Healthy),
        other => panic!("expected liveness, got {other:?}"),
    }
}

#[test]
fn readiness_degraded_stays_200_by_default() {
    let registry = registry_with(&["db"]);
    let route = readiness_route(());
    assert_eq!(route.path, "/readyz");
    assert_eq!(route.handler, Handler::Readiness);
    let outcome = registry.check_readiness(&[ok(HealthStatus::Degraded)]);
    let res = readiness_handler(&route.state, outcome);
    assert_eq!(res.status.as_u16(), 200);
}

#[test]
fn readiness_degraded_is_503_when_strict() {
    let registry = registry_with(&["db"]);
    let route = readiness_route_with((), ReadinessConfig::new().degraded_fails_readiness());
    assert_eq!(route.path, "/readyz");
    let outcome = registry.check_readiness(&[ok(HealthStatus::Degraded)]);
    let res = readiness_handler(&route.state, outcome);
    assert_eq!(res.status.as_u16(), 503);
    // The body continues to report the degraded detail.
    assert_eq!(readiness(res).0, HealthStatus::Degraded);
}

#[test]
fn readiness_unhealthy_is_503() {
    let registry = registry_with(&["db"]);
    let outcome = registry.check_readiness(&[ok(HealthStatus::Unhealthy)]);
    let res = readiness_handler(&readiness_route(()).state, outcome);
    assert_eq!(res.status, StatusCode::ServiceUnavailable);
}

#[test]
fn readiness_route_returns_200_when_all_checks_pass() {
    let registry = registry_with(&["db"]);
    let outcome = registry.check_readiness(&[ok(HealthStatus::Healthy)]);
    let res = readiness_handler(&readiness_route(()).state, outcome);
    assert_eq!(res.status.as_u16(), 200);
    let (status, checks) = readiness(res);
    assert_eq!(status, HealthStatus::Healthy);
    assert_eq!(checks.len(), 1);
    assert_eq!(checks[0].name, "db");
    assert_eq!(checks[0].status, HealthStatus::Healthy);
}

#[test]
fn readiness_response_carries_the_failing_check_and_its_message() {
    let registry = registry_with(&["db", "cache"]);
    let outcome = registry.check_readiness(&[ok(HealthStatus::Healthy), failing()]);
    let res = readiness_handler(&readiness_route(()).state, outcome);
    assert_eq!(res.status.as_u16(), 503);
    let (status, checks) = readiness(res);
    assert_eq!(status, HealthStatus::Unhealthy);
    assert_eq!(checks.len(), 2);
    assert_eq!(checks[1].name, "cache");
    assert_eq!(checks[1].status, HealthStatus::Unhealthy);
    assert_eq!(
        checks[1].message.as_deref(),
        Some("health check failed: dependency down")
    );
    assert_eq!(checks[0].name, "db");
    assert_eq!(checks[0].status, HealthStatus::Healthy);
}

#[test]
fn startup_route_returns_200_when_healthy() {
    let registry = registry_with(&["init"]);
    let route = startup_route(());
    assert_eq!(route.path, "/startupz");
    assert_eq!(route.handler, Handler::Startup);
    let res = answer_startup(&route.state, &registry, &[ok(HealthStatus::Healthy)]);
    assert_eq!(startup(res), (200, HealthStatus::Healthy));
}

#[test]
fn startup_route_returns_503_when_unhealthy() {
    let registry = registry_with(&["init"]);
    let res = answer_startup(&startup_route(()).state, &registry, &[failing()]);
    assert_eq!(startup(res), (503, HealthStatus::Unhealthy));
}

#[test]
fn startup_route_is_503_when_degraded() {
    let registry = registry_with(&["init"]);
    let runs = [ok(HealthStatus::Degraded)];
    let res = answer_startup(&startup_route(()).state, &registry, &runs);
    assert_eq!(startup(res), (503, HealthStatus::Degraded));
}

#[test]
fn startup_route_for_group_runs_only_that_group() {
    // Dependency check that would fail startup if it ran here.
    let mut registry = registry_with(&["database"]);
    registry.add_check_to_group("init", "migrations", ());

    let route = startup_route_for_group((), "init");
    let selected = startup_checks(&route.state, &registry);
    assert_eq!(selected.len(), 1);
    assert_eq!(selected[0].name, "migrations");
    let res = answer_startup(&route.state, &registry, &[ok(HealthStatus::Healthy)]);
    assert_eq!(startup(res), (200, HealthStatus::Healthy));
}

#[test]
fn startup_route_for_group_still_reports_failures() {
    let mut registry = registry_with(&[]);
    registry.add_check_to_group("init", "migrations", ());
    let route = startup_route_for_group((), "init");
    let res = answer_startup(&route.state, &registry, &[ok(HealthStatus::Unhealthy)]);
    assert_eq!(res.status.as_u16(), 503);
}

#[test]
fn startup_route_for_unknown_group_is_200() {
    let registry = registry_with(&["db"]);
    let route = startup_route_for_group((), "nope");
    assert!(startup_checks(&route.state, &registry).is_empty());
    let res = answer_startup(&route.state, &registry, &[]);
    assert_eq!(res.status.as_u16(), 200);
}

#[test]
fn detailed_route_returns_200_with_check_details_when_ready() {
    let registry = registry_with(&["db", "queue"]);
    let route = detailed_route(());
    assert_eq!(route.path, "/healthz/detailed");
    assert_eq!(route.handler, Handler::Detailed);
    let outcome = registry.check_readiness(&[ok(HealthStatus::Healthy), ok(HealthStatus::Degraded)]);
    let res = detailed_handler(&route.state, outcome);
    assert_eq!(res.status.as_u16(), 200);
    let (status, checks) = readiness(res);
    assert_eq!(status, HealthStatus::Degraded);
    assert_eq!(checks.len(), 2);
}

#[test]
fn detailed_route_returns_503_when_not_ready() {
    let registry = registry_with(&["db"]);
    let route = detailed_route_with((), ReadinessConfig::default());
    let res = detailed_handler(&route.state, registry.check_readiness(&[failing()]));
    assert_eq!(res.status.as_u16(), 503);
    assert_eq!(readiness(res).0, HealthStatus::Unhealthy);
}

#[test]
fn registry_errors_answer_500_with_no_body() {
    let state = HealthState {
        registry: (),
        config: ReadinessConfig::new(),
    };
    for res in [
        readiness_handler(&state, Err(HealthCheckError::ShuttingDown)),
        detailed_handler(&state, Err(HealthCheckError::ShuttingDown)),
    ] {
        assert_eq!(res.status.as_u16(), 500);
        assert!(matches!(res.body, Body::Empty));
    }
}

#[test]
fn readiness_status_codes() {
    let lenient = ReadinessConfig::new();
    let strict = lenient.degraded_fails_readiness();
    let code = |status, config| readiness_status_code(status, config).as_u16();
    assert_eq!(code(HealthStatus::Healthy, lenient), 200);
    assert_eq!(code(HealthStatus::Healthy, strict), 200);
    assert_eq!(code(HealthStatus::Degraded, lenient), 200);
    assert_eq!(code(HealthStatus::Degraded, strict), 503);
    assert_eq!(code(HealthStatus::Unhealthy, lenient), 503);
    assert_eq!(code(HealthStatus::Unhealthy, strict), 503);
}

#[test]
fn aggregate_status_of_nothing_is_healthy() {
    assert_eq!(aggregate_status(&[]), HealthStatus::Healthy);
}

#[test]
fn strictness_changes_the_code_but_not_the_body() {
    let registry = registry_with(&["db", "cache"]);
    let runs = [ok(HealthStatus::Healthy), ok(HealthStatus::Degraded)];
    let lenient = readiness_handler(
        &readiness_route(()).state,
        registry.check_readiness(&runs),
    );
    let strict = readiness_handler(
        &readiness_route_with((), ReadinessConfig::new().degraded_fails_readiness()).state,
        registry.check_readiness(&runs),
    );
    assert_eq!(lenient.status.as_u16(), 200);
    assert_eq!(strict.status.as_u16(), 503);
    let (lenient_status, lenient_checks) = readiness(lenient);
    let (strict_status, strict_checks) = readiness(strict);
    assert_eq!(lenient_status, HealthStatus::Degraded);
    assert_eq!(strict_status, lenient_status);
    assert_eq!(format!("{lenient_checks:?}"), format!("{strict_checks:?}"));
}
