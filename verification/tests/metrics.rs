use healthkit::axum::{metrics_route, metrics_route_with_cache, Body, Handler, Response};
use healthkit::metrics::{escape_label, healthiness_value, sum_sample};
use healthkit::{
    metrics_handler, render_prometheus, CheckResult, Duration, HealthStatus, MetricsState,
};

fn result(name: &str, status: HealthStatus, millis: u64) -> CheckResult {
    CheckResult {
        name: name.to_string(),
        status,
        message: None,
        duration: Duration::from_millis(millis),
    }
}

#[test]
fn healthy_check_renders_gauge_value_one() {
    let out = render_prometheus(&[result("db", HealthStatus::Healthy, 3)]);
    assert!(out.contains("healthkit_check_healthiness{check=\"db\"} 1\n"));
}

#[test]
fn degraded_check_renders_gauge_value_half() {
    let out = render_prometheus(&[result("db", HealthStatus::Degraded, 3)]);
    assert!(out.contains("healthkit_check_healthiness{check=\"db\"} 0.5\n"));
}

#[test]
fn unhealthy_check_renders_gauge_value_zero() {
    let out = render_prometheus(&[result("db", HealthStatus::Unhealthy, 3)]);
    assert!(out.contains("healthkit_check_healthiness{check=\"db\"} 0\n"));
}

#[test]
fn histogram_buckets_are_cumulative_and_ordered() {
    let out = render_prometheus(&[result("db", HealthStatus::Healthy, 3)]);

    // 3 ms falls into the 0.005 bucket and every bucket above it.
    assert!(out.contains("healthkit_check_duration_seconds_bucket{check=\"db\",le=\"0.005\"} 1\n"));
    assert!(out.contains("healthkit_check_duration_seconds_bucket{check=\"db\",le=\"0.01\"} 1\n"));
    assert!(out.contains("healthkit_check_duration_seconds_bucket{check=\"db\",le=\"+Inf\"} 1\n"));
    assert!(out.contains("healthkit_check_duration_seconds_sum{check=\"db\"} 0.003\n"));
    assert!(out.contains("healthkit_check_duration_seconds_count{check=\"db\"} 1\n"));

    // Every standard bucket line is present, in order.
    let buckets = [
        "0.005", "0.01", "0.025", "0.05", "0.1", "0.25", "0.5", "1", "2.5", "5", "10",
    ];
    let mut last = 0;
    for le in buckets {
        let marker = format!("le=\"{le}\"}}");
        let pos = out.find(&marker).unwrap();
        assert!(pos > last, "bucket {le} out of order");
        last = pos;
    }
}

#[test]
fn slow_check_lands_above_low_buckets() {
    let out = render_prometheus(&[result("db", HealthStatus::Healthy, 3_000)]);
    assert!(out.contains("healthkit_check_duration_seconds_bucket{check=\"db\",le=\"0.005\"} 0\n"));
    assert!(out.contains("healthkit_check_duration_seconds_bucket{check=\"db\",le=\"2.5\"} 0\n"));
    assert!(out.contains("healthkit_check_duration_seconds_bucket{check=\"db\",le=\"5\"} 1\n"));
    assert!(out.contains("healthkit_check_duration_seconds_sum{check=\"db\"} 3\n"));
}

#[test]
fn header_lines_precede_samples_and_families_do_not_interleave() {
    let out = render_prometheus(&[
        result("db", HealthStatus::Healthy, 1),
        result("cache", HealthStatus::Unhealthy, 2),
    ]);

    let help_gauge = out.find("# HELP healthkit_check_healthiness").unwrap();
    let type_gauge = out
        .find("# TYPE healthkit_check_healthiness gauge\n")
        .unwrap();
    let first_gauge = out
        .find("healthkit_check_healthiness{check=\"db\"} 1\n")
        .unwrap();
    assert!(help_gauge < type_gauge && type_gauge < first_gauge);

    let help_hist = out.find("# HELP healthkit_check_duration_seconds").unwrap();
    assert!(help_hist > first_gauge);
    // Both gauge samples precede the histogram family.
    assert!(
        out.find("healthkit_check_healthiness{check=\"cache\"} 0\n")
            .unwrap()
            < help_hist
    );

    assert_eq!(out.matches("# TYPE").count(), 2);
    assert_eq!(out.matches("# HELP").count(), 2);
}

#[test]
fn empty_results_render_only_headers() {
    let out = render_prometheus(&[]);
    assert_eq!(
        out,
        "# HELP healthkit_check_healthiness Health status of the check \
         (1 = healthy, 0.5 = degraded, 0 = unhealthy).\n\
         # TYPE healthkit_check_healthiness gauge\n\
         # HELP healthkit_check_duration_seconds Duration of the check \
         execution in seconds.\n\
         # TYPE healthkit_check_duration_seconds histogram\n"
    );
}

#[test]
fn label_values_are_escaped() {
    let out = render_prometheus(&[result("we\"ird\\na#me", HealthStatus::Healthy, 0)]);
    assert!(out.contains("healthkit_check_healthiness{check=\"we\\\"ird\\\\na#me\"} 1\n"));
}

#[test]
fn output_ends_with_newline() {
    let out = render_prometheus(&[result("db", HealthStatus::Healthy, 1)]);
    assert!(out.ends_with('\n'));
    assert!(!out.ends_with("\n\n"));
}

#[test]
fn one_check_renders_every_line() {
    let out = render_prometheus(&[result("db", HealthStatus::Degraded, 1_234)]);
    let expected = "\
# HELP healthkit_check_healthiness Health status of the check (1 = healthy, 0.5 = degraded, 0 = unhealthy).
# TYPE healthkit_check_healthiness gauge
healthkit_check_healthiness{check=\"db\"} 0.5
# HELP healthkit_check_duration_seconds Duration of the check execution in seconds.
# TYPE healthkit_check_duration_seconds histogram
healthkit_check_duration_seconds_bucket{check=\"db\",le=\"0.005\"} 0
healthkit_check_duration_seconds_bucket{check=\"db\",le=\"0.01\"} 0
healthkit_check_duration_seconds_bucket{check=\"db\",le=\"0.025\"} 0
healthkit_check_duration_seconds_bucket{check=\"db\",le=\"0.05\"} 0
healthkit_check_duration_seconds_bucket{check=\"db\",le=\"0.1\"} 0
healthkit_check_duration_seconds_bucket{check=\"db\",le=\"0.25\"} 0
healthkit_check_duration_seconds_bucket{check=\"db\",le=\"0.5\"} 0
healthkit_check_duration_seconds_bucket{check=\"db\",le=\"1\"} 0
healthkit_check_duration_seconds_bucket{check=\"db\",le=\"2.5\"} 1
healthkit_check_duration_seconds_bucket{check=\"db\",le=\"5\"} 1
healthkit_check_duration_seconds_bucket{check=\"db\",le=\"10\"} 1
healthkit_check_duration_seconds_bucket{check=\"db\",le=\"+Inf\"} 1
healthkit_check_duration_seconds_sum{check=\"db\"} 1.234
healthkit_check_duration_seconds_count{check=\"db\"} 1
";
    assert_eq!(out, expected);
}

#[test]
fn bucket_bounds_are_inclusive_to_the_nanosecond() {
    // Upper bounds as seconds, the way a scraper reads them.
    let bounds: [(&str, f64); 11] = [
        ("0.005", 0.005),
        ("0.01", 0.01),
        ("0.025", 0.025),
        ("0.05", 0.05),
        ("0.1", 0.1),
        ("0.25", 0.25),
        ("0.5", 0.5),
        ("1", 1.0),
        ("2.5", 2.5),
        ("5", 5.0),
        ("10", 10.0),
    ];
    for (le, secs) in bounds {
        let nanos = (secs * 1e9).round() as u64;
        for n in [nanos - 1, nanos, nanos + 1] {
            let (whole, rest) = (n / 1_000_000_000, (n % 1_000_000_000) as u32);
            let mut r = result("db", HealthStatus::Healthy, 0);
            r.duration = Duration::new(whole, rest);
            let as_float = std::time::Duration::new(whole, rest).as_secs_f64();
            let count = u64::from(as_float <= secs);
            let out = render_prometheus(&[r]);
            assert!(out.contains(&format!("le=\"{le}\"}} {count}\n")));
            assert!(out.contains(&format!("_sum{{check=\"db\"}} {as_float}\n")));
        }
    }
}

#[test]
fn newline_in_a_label_is_escaped() {
    assert_eq!(escape_label("a\nb"), "a\\nb");
    assert_eq!(escape_label("\\n"), "\\\\n");
    assert_eq!(escape_label("\"\\\n"), "\\\"\\\\\\n");
    assert_eq!(escape_label("plain h\u{e9}"), "plain h\u{e9}");
    assert_eq!(escape_label(""), "");
}

#[test]
fn gauge_values() {
    assert_eq!(healthiness_value(HealthStatus::Healthy), "1");
    assert_eq!(healthiness_value(HealthStatus::Degraded), "0.5");
    assert_eq!(healthiness_value(HealthStatus::Unhealthy), "0");
}

fn text_of(response: Response) -> String {
    assert_eq!(response.status.as_u16(), 200);
    match response.body {
        Body::Text { content_type, text } => {
            assert_eq!(content_type, "text/plain; version=0.0.4; charset=utf-8");
            text
        }
        other => panic!("expected text, got {other:?}"),
    }
}

#[test]
fn metrics_route_returns_200_with_text_exposition() {
    let route = metrics_route(());
    assert_eq!(route.path, "/metrics");
    assert_eq!(route.handler, Handler::Metrics);
    let mut state = route.state;
    let results = [result("db", HealthStatus::Healthy, 1)];
    let body = text_of(metrics_handler(&mut state, Duration::from_secs(1), &results));
    assert!(body.contains("# TYPE healthkit_check_healthiness gauge\n"));
    assert!(body.contains("healthkit_check_healthiness{check=\"db\"} 1\n"));
    assert!(body.contains("# TYPE healthkit_check_duration_seconds histogram\n"));
    assert!(body.contains("healthkit_check_duration_seconds_count{check=\"db\"} 1\n"));
}

#[test]
fn metrics_route_reports_unhealthy_checks_with_200() {
    let mut state = metrics_route(()).state;
    let results = [
        result("db", HealthStatus::Healthy, 1),
        result("cache", HealthStatus::Unhealthy, 1),
    ];
    let body = text_of(metrics_handler(&mut state, Duration::from_secs(1), &results));
    assert!(body.contains("healthkit_check_healthiness{check=\"db\"} 1\n"));
    assert!(body.contains("healthkit_check_healthiness{check=\"cache\"} 0\n"));
}

#[test]
fn metrics_route_with_empty_registry_renders_headers_only() {
    let mut state = metrics_route(()).state;
    let body = text_of(metrics_handler(&mut state, Duration::from_secs(1), &[]));
    assert_eq!(
        body,
        "# HELP healthkit_check_healthiness Health status of the check \
         (1 = healthy, 0.5 = degraded, 0 = unhealthy).\n\
         # TYPE healthkit_check_healthiness gauge\n\
         # HELP healthkit_check_duration_seconds Duration of the check \
         execution in seconds.\n\
         # TYPE healthkit_check_duration_seconds histogram\n"
    );
}

#[test]
fn cached_metrics_route_does_not_execute_checks_within_ttl() {
    let ttl = Duration::from_millis(30);
    let route = metrics_route_with_cache((), ttl);
    assert_eq!(route.path, "/metrics");
    let mut state = route.state;

    // First scrape executes the check and populates the cache.
    assert!(state.cached(Duration::from_millis(1_000)).is_none());
    let results = [result("db", HealthStatus::Healthy, 1)];
    let first = text_of(metrics_handler(&mut state, Duration::from_millis(1_001), &results));
    assert!(first.contains("healthkit_check_healthiness{check=\"db\"} 1\n"));

    // Second scrape within the TTL is served from cache.
    let second = state.cached(Duration::from_millis(1_030)).unwrap();
    assert_eq!(text_of(second), first);

    // After the TTL lapses the next scrape executes checks again.
    assert!(state.cached(Duration::from_millis(1_031)).is_none());
    assert!(state.cached(Duration::from_millis(1_091)).is_none());
}

#[test]
fn uncached_metrics_route_executes_checks_on_every_scrape() {
    let mut state = metrics_route(()).state;
    for i in 0..3 {
        assert!(state.cached(Duration::from_millis(i)).is_none());
        let results = [result("db", HealthStatus::Healthy, 1)];
        text_of(metrics_handler(&mut state, Duration::from_millis(i), &results));
    }
    assert!(state.cached(Duration::from_millis(3)).is_none());
}

#[test]
fn zero_ttl_serves_nothing_twice() {
    let mut state = MetricsState::with_cache((), Duration::from_secs(0));
    text_of(metrics_handler(&mut state, Duration::from_secs(7), &[]));
    assert!(state.cached(Duration::from_secs(7)).is_none());
}

#[test]
fn hostile_names_read_back_from_their_lines() {
    let names = ["plain", "q\"uote", "back\\slash", "new\nline", "\"} 1\n", "\\n", ""];
    let results: Vec<CheckResult> = names
        .iter()
        .map(|name| result(name, HealthStatus::Degraded, 1))
        .collect();
    let out = render_prometheus(&results);
    let gauges: Vec<&str> = out
        .lines()
        .filter(|line| line.starts_with("healthkit_check_healthiness{"))
        .collect();
    assert_eq!(gauges.len(), names.len());
    for (line, name) in gauges.iter().zip(names) {
        let label = line
            .strip_prefix("healthkit_check_healthiness{check=\"")
            .and_then(|rest| rest.strip_suffix("\"} 0.5"))
            .unwrap();
        let mut read = String::new();
        let mut chars = label.chars();
        while let Some(ch) = chars.next() {
            match ch {
                '\\' => match chars.next() {
                    Some('n') => read.push('\n'),
                    Some(escaped) => read.push(escaped),
                    None => panic!("a label ends in a backslash"),
                },
                '"' => panic!("a label holds a bare quote"),
                _ => read.push(ch),
            }
        }
        assert_eq!(read, name);
    }
}

#[test]
fn sum_sample_writes_the_seconds_it_is_given() {
    assert_eq!(
        sum_sample("db", "0.25"),
        "healthkit_check_duration_seconds_sum{check=\"db\"} 0.25\n"
    );
}

#[test]
fn every_check_has_one_gauge_line_and_fourteen_histogram_lines() {
    let names = ["plain", "new\nline", "\"} 1\n"];
    for n in 0..=names.len() {
        let results: Vec<CheckResult> = names[..n]
            .iter()
            .map(|name| result(name, HealthStatus::Healthy, 1_234))
            .collect();
        let out = render_prometheus(&results);
        assert_eq!(out.matches('\n').count(), 4 + 15 * n);
    }
}
