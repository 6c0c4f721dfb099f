use healthkit::registry::{
    aggregate, emit_facade_metrics, run_one, sweep_emissions, CheckRun, Emission, Outcome, RegisteredCheck,
};
use healthkit::{CheckResult, Duration, HealthCheckError, HealthRegistry, HealthStatus};

/// A registry whose checks need nothing to run.
fn registry() -> HealthRegistry<()> {
    HealthRegistry::new()
}

fn ok(status: HealthStatus) -> CheckRun {
    CheckRun {
        outcome: Outcome::Finished(Ok(status)),
        elapsed: Duration::from_millis(1),
    }
}

fn err(error: HealthCheckError) -> CheckRun {
    CheckRun {
        outcome: Outcome::Finished(Err(error)),
        elapsed: Duration::from_millis(1),
    }
}

fn missed(elapsed: Duration) -> CheckRun {
    CheckRun {
        outcome: Outcome::DeadlineElapsed,
        elapsed,
    }
}

#[test]
fn default_timeout_is_five_seconds() {
    assert_eq!(registry().default_timeout(), Duration::from_secs(5));
}

#[test]
fn per_check_timeout_fires_and_captures_message() {
    let mut registry = registry().with_default_timeout(Duration::from_millis(100));
    registry.add_check("hangs", ());
    registry.add_check("quick", ());
    assert_eq!(registry.deadline(), Some(Duration::from_millis(100)));

    let runs = [missed(Duration::from_millis(101)), ok(HealthStatus::Healthy)];
    let results = registry.check_all(&runs);
    assert_eq!(results.len(), 2);

    let hangs = results.iter().find(|r| r.name == "hangs").unwrap();
    assert_eq!(hangs.status, HealthStatus::Unhealthy);
    assert_eq!(
        hangs.message.as_deref(),
        Some("health check timed out after 100ms")
    );
    assert_eq!(hangs.duration, Duration::from_millis(101));

    // The healthy check alongside the hanging one is unaffected.
    let quick = results.iter().find(|r| r.name == "quick").unwrap();
    assert_eq!(quick.status, HealthStatus::Healthy);
    assert!(quick.message.is_none());
}

#[test]
fn zero_timeout_disables_deadline() {
    let mut registry = registry().with_default_timeout(Duration::from_secs(0));
    registry.add_check("slow_but_ok", ());
    assert_eq!(registry.deadline(), None);

    let run = CheckRun {
        outcome: Outcome::Finished(Ok(HealthStatus::Healthy)),
        elapsed: Duration::from_millis(150),
    };
    let results = registry.check_all(&[run]);
    assert_eq!(results.len(), 1);
    assert_eq!(results[0].status, HealthStatus::Healthy);
    assert!(results[0].message.is_none());
}

#[test]
fn failing_check_message_captures_error_detail() {
    let mut registry = registry();
    registry.add_check("db", ());
    registry.add_check("cache", ());
    let runs = [
        ok(HealthStatus::Healthy),
        err(HealthCheckError::DependencyUnavailable(
            "connection refused".to_string(),
        )),
    ];

    let (status, results) = registry.check_readiness(&runs).unwrap();
    assert_eq!(status, HealthStatus::Unhealthy);
    let cache = results.iter().find(|r| r.name == "cache").unwrap();
    assert_eq!(cache.status, HealthStatus::Unhealthy);
    assert_eq!(
        cache.message.as_deref(),
        Some("dependency unavailable: connection refused")
    );
    // Healthy checks carry no message.
    let db = results.iter().find(|r| r.name == "db").unwrap();
    assert!(db.message.is_none());
}

#[test]
fn check_group_runs_only_grouped_checks() {
    let mut registry = registry();
    registry.add_check("ungrouped", ());
    registry.add_check_to_group("init", "migrations", ());
    registry.add_check_to_group("init", "cache_warm", ());
    registry.add_check_to_group("deps", "database", ());

    let names = |checks: Vec<&RegisteredCheck<()>>| -> Vec<String> {
        checks.iter().map(|c| c.name.clone()).collect()
    };
    assert_eq!(names(registry.sweep(Some("init"))), ["migrations", "cache_warm"]);
    assert_eq!(
        names(registry.sweep(None)),
        ["ungrouped", "migrations", "cache_warm", "database"]
    );

    let init = registry.check_group(
        "init",
        &[ok(HealthStatus::Healthy), ok(HealthStatus::Degraded)],
    );
    assert_eq!(init.len(), 2);
    assert!(init.iter().all(|r| r.name != "ungrouped"));
    assert!(init.iter().all(|r| r.name != "database"));

    // Grouped checks also run in registry-wide probes...
    let runs = [
        ok(HealthStatus::Healthy),
        ok(HealthStatus::Healthy),
        ok(HealthStatus::Degraded),
        ok(HealthStatus::Healthy),
    ];
    let all = registry.check_all(&runs);
    assert_eq!(all.len(), 4);

    // ...and aggregate into check_liveness / check_readiness.
    assert_eq!(
        registry.check_liveness(&runs).unwrap(),
        HealthStatus::Degraded
    );

    // Unknown groups are empty.
    assert!(registry.sweep(Some("nope")).is_empty());
    assert!(registry.check_group("nope", &[]).is_empty());
}

#[test]
fn group_checks_respect_timeout_and_message_capture() {
    let mut registry = registry().with_default_timeout(Duration::from_millis(100));
    registry.add_check_to_group("init", "hangs", ());

    let results = registry.check_group("init", &[missed(Duration::from_millis(100))]);
    assert_eq!(results.len(), 1);
    assert_eq!(results[0].status, HealthStatus::Unhealthy);
    assert_eq!(
        results[0].message.as_deref(),
        Some("health check timed out after 100ms")
    );
}

#[test]
fn registry_new_and_add_check() {
    let mut registry = registry();
    assert!(registry.check_all(&[]).is_empty());

    registry.add_check("always_healthy", ());
    let results = registry.check_all(&[ok(HealthStatus::Healthy)]);
    assert_eq!(results.len(), 1);
    assert_eq!(results[0].name, "always_healthy");
    assert!(results[0].status.is_healthy());
}

#[test]
fn registry_add_multiple_checks() {
    let mut registry = registry();
    registry.add_check("ok", ());
    registry.add_check("degraded", ());
    registry.add_check("failing", ());
    let results = registry.check_all(&[
        ok(HealthStatus::Healthy),
        ok(HealthStatus::Degraded),
        err(HealthCheckError::CheckFailed("oops".to_string())),
    ]);
    assert_eq!(results.len(), 3);
}

#[test]
fn registry_check_liveness_no_checks() {
    let status = registry().check_liveness(&[]).unwrap();
    assert!(status.is_healthy());
}

#[test]
fn registry_check_readiness_mixed() {
    let mut registry = registry();
    registry.add_check("ok", ());
    registry.add_check("degraded", ());
    let runs = [ok(HealthStatus::Healthy), ok(HealthStatus::Degraded)];
    let (status, results) = registry.check_readiness(&runs).unwrap();
    assert_eq!(status, HealthStatus::Degraded);
    assert_eq!(results.len(), 2);
}

#[test]
fn registry_check_liveness_mixed_reports_worst_status() {
    let mut registry = registry();
    registry.add_check("ok", ());
    registry.add_check("degraded", ());
    registry.add_check("failing", ());
    let runs = [
        ok(HealthStatus::Healthy),
        ok(HealthStatus::Degraded),
        err(HealthCheckError::DependencyUnavailable("db".to_string())),
    ];
    let status = registry.check_liveness(&runs).unwrap();
    assert_eq!(status, HealthStatus::Unhealthy);
}

#[test]
fn registry_check_readiness_failing_reports_unhealthy_with_details() {
    let mut registry = registry();
    registry.add_check("ok", ());
    registry.add_check("failing", ());
    let runs = [
        ok(HealthStatus::Healthy),
        err(HealthCheckError::CheckTimedOut(Duration::from_secs(2))),
    ];
    let (status, results) = registry.check_readiness(&runs).unwrap();
    assert_eq!(status, HealthStatus::Unhealthy);
    let failing = results.iter().find(|r| r.name == "failing").unwrap();
    assert_eq!(failing.status, HealthStatus::Unhealthy);
    assert_eq!(
        failing.message.as_deref(),
        Some("health check timed out after 2s")
    );
}

#[test]
fn registry_default_is_empty_and_healthy() {
    let registry: HealthRegistry<()> = HealthRegistry::default();
    assert!(registry.check_all(&[]).is_empty());
    assert_eq!(
        registry.check_liveness(&[]).unwrap(),
        HealthStatus::Healthy
    );
    let (status, results) = registry.check_readiness(&[]).unwrap();
    assert_eq!(status, HealthStatus::Healthy);
    assert!(results.is_empty());
}

#[test]
fn registry_check_with_error_returns_unhealthy() {
    let mut registry = registry();
    registry.add_check("failing", ());
    let results = registry.check_all(&[err(HealthCheckError::CheckFailed("oops".to_string()))]);
    assert_eq!(results.len(), 1);
    assert_eq!(results[0].status, HealthStatus::Unhealthy);
    assert_eq!(
        results[0].message.as_deref(),
        Some("health check failed: oops")
    );
}

#[test]
fn run_one_keeps_name_and_elapsed_time() {
    let check = RegisteredCheck {
        name: "db".to_string(),
        group: None,
        check_fn: 7u8,
    };
    let run = CheckRun {
        outcome: Outcome::Finished(Ok(HealthStatus::Degraded)),
        elapsed: Duration::new(1, 2),
    };
    let result = run_one(&check, Duration::from_secs(5), &run);
    assert_eq!(result.name, "db");
    assert_eq!(result.status, HealthStatus::Degraded);
    assert_eq!(result.message, None);
    assert_eq!(result.duration, Duration::new(1, 2));
}

#[test]
fn aggregate_takes_the_worst_status_in_any_order() {
    let of = |statuses: &[HealthStatus]| {
        let results: Vec<CheckResult> = statuses
            .iter()
            .map(|status| CheckResult {
                name: "c".to_string(),
                status: *status,
                message: None,
                duration: Duration::from_secs(0),
            })
            .collect();
        aggregate(&results)
    };
    let (h, d, u) = (
        HealthStatus::Healthy,
        HealthStatus::Degraded,
        HealthStatus::Unhealthy,
    );
    assert_eq!(of(&[]), h);
    assert_eq!(of(&[h, h]), h);
    assert_eq!(of(&[h, d, h]), d);
    assert_eq!(of(&[u, d, h]), u);
    assert_eq!(of(&[h, d, u]), u);
    // Two sweeps together are as bad as the worse of them.
    assert_eq!((of(&[h, d]), of(&[u, h])), (d, u));
    assert_eq!(of(&[h, d, u, h]), u);
}

#[test]
fn same_name_may_stand_in_two_groups() {
    let mut registry: HealthRegistry<u8> = HealthRegistry::new();
    registry.add_check_to_group("a", "x", 1);
    registry.add_check_to_group("b", "x", 2);
    registry.add_check("x", 3);
    let handles = |checks: Vec<&RegisteredCheck<u8>>| -> Vec<u8> {
        checks.iter().map(|c| c.check_fn).collect()
    };
    assert_eq!(handles(registry.sweep(Some("a"))), [1]);
    assert_eq!(handles(registry.sweep(Some("b"))), [2]);
    assert_eq!(handles(registry.sweep(None)), [1, 2, 3]);
}

/// Name, status and message of each result.
fn summary(results: &[CheckResult]) -> Vec<(String, HealthStatus, Option<String>)> {
    results
        .iter()
        .map(|r| (r.name.clone(), r.status, r.message.clone()))
        .collect()
}

#[test]
fn a_failing_check_changes_no_other_result() {
    let mut registry = registry();
    for name in ["a", "b", "c"] {
        registry.add_check(name, ());
    }
    let degraded = HealthStatus::Degraded;
    let before = summary(&registry.check_all(&[ok(degraded), ok(degraded), ok(degraded)]));
    let after = summary(&registry.check_all(&[
        ok(degraded),
        missed(Duration::from_secs(5)),
        ok(degraded),
    ]));
    assert_eq!(after[0], before[0]);
    assert_eq!(after[2], before[2]);
    assert_eq!(
        after[1],
        (
            "b".to_string(),
            HealthStatus::Unhealthy,
            Some("health check timed out after 5s".to_string())
        )
    );
}

#[test]
fn group_results_are_part_of_all_results() {
    let mut registry = registry();
    registry.add_check("db", ());
    registry.add_check_to_group("init", "migrations", ());
    registry.add_check_to_group("deps", "queue", ());
    registry.add_check_to_group("init", "warm", ());
    let all = summary(&registry.check_all(&[
        ok(HealthStatus::Healthy),
        err(HealthCheckError::ShuttingDown),
        ok(HealthStatus::Degraded),
        ok(HealthStatus::Degraded),
    ]));
    let init = summary(&registry.check_group(
        "init",
        &[
            err(HealthCheckError::ShuttingDown),
            ok(HealthStatus::Degraded),
        ],
    ));
    assert_eq!(init, [all[1].clone(), all[3].clone()]);
}

#[test]
fn clones_share_their_checks_and_keep_their_own_timeout() {
    let mut shared: HealthRegistry<u8> = HealthRegistry::new();
    let one = shared.handle();
    let other = one.clone().with_default_timeout(Duration::from_millis(100));
    let unbounded = one.clone().with_default_timeout(Duration::from_secs(0));
    assert_eq!(one.default_timeout, Duration::from_secs(5));
    shared.add_check("db", 1);
    assert_eq!(one.snapshot(&shared).sweep(None).len(), 1);

    // What one of them registers later, all of them run.
    shared.add_check_to_group("init", "migrations", 2);
    for handle in [one, other, unbounded] {
        let registry = handle.snapshot(&shared);
        assert_eq!(registry.default_timeout(), handle.default_timeout);
        let checks: Vec<(String, Option<String>, u8)> = registry
            .sweep(None)
            .iter()
            .map(|c| (c.name.clone(), c.group.clone(), c.check_fn))
            .collect();
        assert_eq!(
            checks,
            [
                ("db".to_string(), None, 1),
                ("migrations".to_string(), Some("init".to_string()), 2)
            ]
        );
        assert_eq!(registry.sweep(Some("init")).len(), 1);
        let runs = [ok(HealthStatus::Healthy), ok(HealthStatus::Degraded)];
        assert_eq!(registry.check_all(&runs).len(), 2);
        assert_eq!(registry.check_liveness(&runs).unwrap(), HealthStatus::Degraded);
    }

    // Each names its own deadline.
    let late = |registry: HealthRegistry<u8>| {
        let runs = [ok(HealthStatus::Healthy), missed(Duration::from_secs(6))];
        registry.check_all(&runs)[1].message.clone().unwrap()
    };
    assert_eq!(late(one.snapshot(&shared)), "health check timed out after 5s");
    assert_eq!(late(other.snapshot(&shared)), "health check timed out after 100ms");
    assert_eq!(unbounded.snapshot(&shared).deadline(), None);
}

#[test]
fn a_snapshot_does_not_change_while_others_register() {
    let mut registry = registry().with_default_timeout(Duration::from_secs(2));
    registry.add_check("db", ());
    let snapshot = registry.snapshot();
    registry.add_check("cache", ());
    assert_eq!(snapshot.default_timeout(), Duration::from_secs(2));
    assert_eq!(snapshot.sweep(None).len(), 1);
    assert_eq!(registry.sweep(None).len(), 2);
}

#[test]
fn registration_appends_even_under_a_known_name() {
    let mut registry: HealthRegistry<u8> = HealthRegistry::new();
    registry.add_check("db", 1);
    registry.add_check_inner(Some("init".to_string()), "db", 2);
    registry.add_check_inner(None, "db", 3);
    let handles: Vec<u8> = registry.sweep(None).iter().map(|c| c.check_fn).collect();
    assert_eq!(handles, [1, 2, 3]);
    assert_eq!(registry.sweep(Some("init")).len(), 1);
    let healthy = HealthStatus::Healthy;
    let results = registry.check_all(&[ok(healthy), ok(healthy), ok(healthy)]);
    assert_eq!(results.len(), 3);
    assert_eq!(results[2].name, "db");
}

#[test]
fn a_sweep_emits_a_pair_for_each_result() {
    let mut registry = registry();
    registry.add_check("db", ());
    registry.add_check("cache", ());
    let results = registry.check_all(&[
        ok(HealthStatus::Healthy),
        err(HealthCheckError::CheckFailed("down".to_string())),
    ]);
    let emissions = sweep_emissions(&results);
    let expected: Vec<Emission> = results
        .iter()
        .flat_map(|r| {
            let (outcome, duration) = emit_facade_metrics(r);
            [outcome, duration]
        })
        .collect();
    assert_eq!(emissions.len(), 4);
    assert_eq!(format!("{emissions:?}"), format!("{expected:?}"));
    assert!(sweep_emissions(&[]).is_empty());
}

#[test]
fn facade_emits_counters_and_histograms_for_each_check() {
    let mut registry = registry();
    registry.add_check("db", ());
    registry.add_check("cache", ());
    let results = registry.check_all(&[
        ok(HealthStatus::Healthy),
        err(HealthCheckError::CheckFailed("down".to_string())),
    ]);
    assert_eq!(results.len(), 2);

    let mut counters = Vec::new();
    let mut histograms = Vec::new();
    for result in &results {
        let (outcome, duration) = emit_facade_metrics(result);
        for emission in [outcome, duration] {
            match emission {
                Emission::Increment { metric, labels, by } => counters.push((metric, labels, by)),
                Emission::Record { metric, labels, value } => {
                    histograms.push((metric, labels, value));
                }
            }
        }
    }

    // One counter increment per check, labeled name + status.
    assert_eq!(counters.len(), 2, "expected one counter per check");
    for (name, labels, value) in counters.iter() {
        assert_eq!(*name, "healthkit_check_result");
        assert_eq!(*value, 1);
        assert_eq!(labels.len(), 2);
        assert_eq!(labels[0].0, "name");
        assert_eq!(labels[1].0, "status");
    }
    assert!(
        counters
            .iter()
            .any(|(_, l, _)| l[0].1 == "db" && l[1].1 == "healthy")
    );
    assert!(
        counters
            .iter()
            .any(|(_, l, _)| l[0].1 == "cache" && l[1].1 == "unhealthy")
    );

    // One histogram observation per check, labeled by name.
    assert_eq!(histograms.len(), 2, "expected one histogram per check");
    for (name, labels, value) in histograms.iter() {
        assert_eq!(*name, "healthkit_check_duration_seconds");
        assert_eq!(labels.len(), 1);
        assert_eq!(labels[0].0, "name");
        assert_eq!(*value, Duration::from_millis(1));
    }
    assert!(histograms.iter().any(|(_, l, _)| l[0].1 == "db"));
    assert!(histograms.iter().any(|(_, l, _)| l[0].1 == "cache"));
}
