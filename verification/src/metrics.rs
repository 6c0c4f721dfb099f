//! Prometheus text-exposition rendering of health check results.
//!
//! The output implements the Prometheus text-based format, version 0.0.4. Two
//! metric families are emitted:
//!
//! - `healthkit_check_healthiness` (gauge): `1` = healthy, `0.5` = degraded,
//!   `0` = unhealthy, labeled by check name.
//! - `healthkit_check_duration_seconds` (histogram): probe latency in seconds
//!   with the standard bucket set plus `_sum` and `_count`.
use vstd::prelude::*;
use vstd::string::StringExecFns;

use crate::axum::{Body, Content, Handler, Reply, Response, Router, StatusCode};
use crate::duration::{seconds_display, seconds_text, Duration};
use crate::types::{reports, CheckReport, CheckResult, HealthStatus};

verus! {

/// Appends a character to a string, as the documentation of
/// `String::push` says.
pub assume_specification[ String::push ](s: &mut String, ch: char)
    ensures
        final(s)@ == old(s)@.push(ch),
;

/// Number of finite buckets of the latency histogram.
pub const LATENCY_BUCKETS: usize = 11;

/// Upper bound of a latency bucket, in nanoseconds.
pub open spec fn bucket_nanos(i: int) -> nat {
    if i == 0 {
        5_000_000
    } else if i == 1 {
        10_000_000
    } else if i == 2 {
        25_000_000
    } else if i == 3 {
        50_000_000
    } else if i == 4 {
        100_000_000
    } else if i == 5 {
        250_000_000
    } else if i == 6 {
        500_000_000
    } else if i == 7 {
        1_000_000_000
    } else if i == 8 {
        2_500_000_000
    } else if i == 9 {
        5_000_000_000
    } else {
        10_000_000_000
    }
}

/// Upper bound of a latency bucket, in seconds, as its `le` label says it.
pub open spec fn bucket_le(i: int) -> Seq<char> {
    if i == 0 {
        "0.005"@
    } else if i == 1 {
        "0.01"@
    } else if i == 2 {
        "0.025"@
    } else if i == 3 {
        "0.05"@
    } else if i == 4 {
        "0.1"@
    } else if i == 5 {
        "0.25"@
    } else if i == 6 {
        "0.5"@
    } else if i == 7 {
        "1"@
    } else if i == 8 {
        "2.5"@
    } else if i == 9 {
        "5"@
    } else {
        "10"@
    }
}

/// Upper bound of a latency bucket: nanoseconds, and the `le` label.
fn bucket(i: usize) -> (b: (u128, &'static str))
    requires
        i < LATENCY_BUCKETS,
    ensures
        b.0 == bucket_nanos(i as int),
        b.1@ == bucket_le(i as int),
{
    match i {
        0 => (5_000_000, "0.005"),
        1 => (10_000_000, "0.01"),
        2 => (25_000_000, "0.025"),
        3 => (50_000_000, "0.05"),
        4 => (100_000_000, "0.1"),
        5 => (250_000_000, "0.25"),
        6 => (500_000_000, "0.5"),
        7 => (1_000_000_000, "1"),
        8 => (2_500_000_000, "2.5"),
        9 => (5_000_000_000, "5"),
        _ => (10_000_000_000, "10"),
    }
}

/// The gauge value of a status, as the exposition says it.
pub open spec fn healthiness_text(status: HealthStatus) -> Seq<char> {
    match status {
        HealthStatus::Healthy => "1"@,
        HealthStatus::Degraded => "0.5"@,
        HealthStatus::Unhealthy => "0"@,
    }
}

/// Map a [`HealthStatus`] to its Prometheus gauge value.
pub fn healthiness_value(status: HealthStatus) -> (value: &'static str)
    ensures
        value@ == healthiness_text(status),
{
    match status {
        HealthStatus::Healthy => "1",
        HealthStatus::Degraded => "0.5",
        HealthStatus::Unhealthy => "0",
    }
}

/// One character of a label value, escaped.
pub open spec fn escaped_char(ch: char) -> Seq<char> {
    if ch == '\\' {
        seq!['\\', '\\']
    } else if ch == '"' {
        seq!['\\', '"']
    } else if ch == '\n' {
        seq!['\\', 'n']
    } else {
        seq![ch]
    }
}

/// A label value, escaped character by character.
pub open spec fn escaped(value: Seq<char>) -> Seq<char>
    decreases value.len(),
{
    if value.len() == 0 {
        Seq::empty()
    } else {
        escaped_char(value[0]) + escaped(value.drop_first())
    }
}

/// Escape a label value per the exposition format (`\`, `"`, newline).
pub fn escape_label(value: &str) -> (out: String)
    ensures
        out@ == escaped(value@),
{
    let mut out = String::new();
    let ghost whole = value@;
    assert(whole.skip(0) =~= whole);
    for ch in it: value.chars()
        invariant
            it.seq() == whole,
            out@ + escaped(whole.skip(it.index())) == escaped(whole),
    {
        let ghost before = out@;
        match ch {
            '\\' => {
                out.push('\\');
                out.push('\\');
            },
            '"' => {
                out.push('\\');
                out.push('"');
            },
            '\n' => {
                out.push('\\');
                out.push('n');
            },
            _ => {
                out.push(ch);
            },
        }
        proof {
            let rest = whole.skip(it.index());
            assert(rest[0] == ch);
            assert(rest.drop_first() =~= whole.skip(it.index() + 1));
            assert(out@ =~= before + escaped_char(ch));
            assert(out@ + escaped(rest.drop_first()) =~= before + escaped(rest));
        }
    }
    assert(whole.skip(whole.len() as int) =~= Seq::empty());
    assert(out@ =~= escaped(whole));
    out
}

/// Header lines of the gauge family.
pub open spec fn gauge_header() -> Seq<char> {
    "# HELP healthkit_check_healthiness Health status of the check (1 = healthy, 0.5 = degraded, 0 = unhealthy).\n"@
        + "# TYPE healthkit_check_healthiness gauge\n"@
}

/// The gauge sample of one report.
pub open spec fn gauge_line(report: CheckReport) -> Seq<char> {
    "healthkit_check_healthiness{check=\""@ + escaped(report.name) + "\"} "@ + healthiness_text(
        report.status,
    ) + "\n"@
}

/// The gauge samples of some reports, in order.
pub open spec fn gauge_lines(reports: Seq<CheckReport>) -> Seq<char>
    decreases reports.len(),
{
    if reports.len() == 0 {
        Seq::empty()
    } else {
        gauge_lines(reports.drop_last()) + gauge_line(reports.last())
    }
}

/// Header lines of the histogram family.
pub open spec fn histogram_header() -> Seq<char> {
    "# HELP healthkit_check_duration_seconds Duration of the check execution in seconds.\n"@
        + "# TYPE healthkit_check_duration_seconds histogram\n"@
}

/// How many of the single observation of `nanos` nanoseconds a bucket holds.
pub open spec fn bucket_count(i: int, nanos: nat) -> nat {
    if nanos <= bucket_nanos(i) {
        1
    } else {
        0
    }
}

/// The sample of one finite bucket; `label` is the escaped name of the check.
pub open spec fn bucket_line(label: Seq<char>, i: int, nanos: nat) -> Seq<char> {
    "healthkit_check_duration_seconds_bucket{check=\""@ + label + "\",le=\""@ + bucket_le(i) + "\"} "@
        + (if bucket_count(i, nanos) == 1 {
        "1"@
    } else {
        "0"@
    }) + "\n"@
}

/// The samples of the first `n` buckets, in order.
pub open spec fn bucket_lines(label: Seq<char>, nanos: nat, n: nat) -> Seq<char>
    decreases n,
{
    if n == 0 {
        Seq::empty()
    } else {
        bucket_lines(label, nanos, (n - 1) as nat) + bucket_line(label, n - 1, nanos)
    }
}

/// The sample of the unbounded bucket.
pub open spec fn infinite_bucket_line(label: Seq<char>) -> Seq<char> {
    "healthkit_check_duration_seconds_bucket{check=\""@ + label + "\",le=\"+Inf\"} 1\n"@
}

/// The sample of a sum that is written `seconds`.
pub open spec fn sum_text(label: Seq<char>, seconds: Seq<char>) -> Seq<char> {
    "healthkit_check_duration_seconds_sum{check=\""@ + label + "\"} "@ + seconds + "\n"@
}

/// The sum of the single observation.
pub open spec fn sum_line(label: Seq<char>, nanos: nat) -> Seq<char> {
    sum_text(label, seconds_display(nanos))
}

/// The count of the single observation.
pub open spec fn count_line(label: Seq<char>) -> Seq<char> {
    "healthkit_check_duration_seconds_count{check=\""@ + label + "\"} 1\n"@
}

/// The histogram of one report: a single observation.
pub open spec fn histogram(report: CheckReport) -> Seq<char> {
    let label = escaped(report.name);
    bucket_lines(label, report.duration, LATENCY_BUCKETS as nat) + infinite_bucket_line(label)
        + sum_line(label, report.duration) + count_line(label)
}

/// The histograms of some reports, in order.
pub open spec fn histograms(reports: Seq<CheckReport>) -> Seq<char>
    decreases reports.len(),
{
    if reports.len() == 0 {
        Seq::empty()
    } else {
        histograms(reports.drop_last()) + histogram(reports.last())
    }
}

/// The exposition of some reports: the gauge family, then the histogram family.
pub open spec fn exposition(reports: Seq<CheckReport>) -> Seq<char> {
    gauge_header() + gauge_lines(reports) + histogram_header() + histograms(reports)
}

fn push_gauge_line(out: &mut String, result: &CheckResult)
    ensures
        final(out)@ == old(out)@ + gauge_line(result@),
{
    out.append("healthkit_check_healthiness{check=\"");
    out.append(escape_label(result.name.as_str()).as_str());
    out.append("\"} ");
    out.append(healthiness_value(result.status));
    out.append("\n");
    assert(out@ =~= old(out)@ + gauge_line(result@));
}

fn push_bucket_line(out: &mut String, label: &str, i: usize, nanos: u128)
    requires
        i < LATENCY_BUCKETS,
    ensures
        final(out)@ == old(out)@ + bucket_line(label@, i as int, nanos as nat),
{
    let (bound, le) = bucket(i);
    out.append("healthkit_check_duration_seconds_bucket{check=\"");
    out.append(label);
    out.append("\",le=\"");
    out.append(le);
    out.append("\"} ");
    if nanos <= bound {
        out.append("1");
    } else {
        out.append("0");
    }
    out.append("\n");
    assert(out@ =~= old(out)@ + bucket_line(label@, i as int, nanos as nat));
}

/// Render the sample of a sum that is written `seconds`; `label` is the escaped
/// name of the check.
pub fn sum_sample(label: &str, seconds: &str) -> (out: String)
    ensures
        out@ == sum_text(label@, seconds@),
{
    let mut out = String::new();
    out.append("healthkit_check_duration_seconds_sum{check=\"");
    out.append(label);
    out.append("\"} ");
    out.append(seconds);
    out.append("\n");
    assert(out@ =~= sum_text(label@, seconds@));
    out
}

fn push_histogram(out: &mut String, result: &CheckResult)
    ensures
        final(out)@ == old(out)@ + histogram(result@),
{
    let label = escape_label(result.name.as_str());
    let nanos: u128 = result.duration.as_nanos();
    let ghost before = out@;
    let mut i: usize = 0;
    while i < LATENCY_BUCKETS
        invariant
            i <= LATENCY_BUCKETS,
            out@ == before + bucket_lines(label@, nanos as nat, i as nat),
        decreases LATENCY_BUCKETS - i,
    {
        push_bucket_line(out, label.as_str(), i, nanos);
        assert(out@ =~= before + bucket_lines(label@, nanos as nat, (i + 1) as nat));
        i += 1;
    }
    out.append("healthkit_check_duration_seconds_bucket{check=\"");
    out.append(label.as_str());
    out.append("\",le=\"+Inf\"} 1\n");
    let seconds = seconds_text(&result.duration);
    out.append(sum_sample(label.as_str(), seconds.as_str()).as_str());
    out.append("healthkit_check_duration_seconds_count{check=\"");
    out.append(label.as_str());
    out.append("\"} 1\n");
    assert(out@ =~= before + histogram(result@));
}

/// Render check results as Prometheus text exposition (version 0.0.4).
///
/// Each entry of `results` produces one `healthkit_check_healthiness` sample
/// and one `healthkit_check_duration_seconds` histogram (single observation:
/// cumulative bucket counts are `0` or `1`). An empty slice renders only the
/// `HELP`/`TYPE` header lines.
pub fn render_prometheus(results: &[CheckResult]) -> (out: String)
    ensures
        out@ == exposition(reports(results@)),
{
    let ghost rs = reports(results@);
    let mut out = String::new();
    out.append(
        "# HELP healthkit_check_healthiness Health status of the check (1 = healthy, 0.5 = degraded, 0 = unhealthy).\n",
    );
    out.append("# TYPE healthkit_check_healthiness gauge\n");
    assert(out@ =~= gauge_header() + gauge_lines(rs.take(0)));
    let mut i: usize = 0;
    while i < results.len()
        invariant
            i <= results.len(),
            rs == reports(results@),
            out@ == gauge_header() + gauge_lines(rs.take(i as int)),
        decreases results.len() - i,
    {
        push_gauge_line(&mut out, &results[i]);
        proof {
            assert(rs.take(i + 1).drop_last() =~= rs.take(i as int));
            assert(out@ =~= gauge_header() + gauge_lines(rs.take(i + 1)));
        }
        i += 1;
    }
    assert(rs.take(rs.len() as int) =~= rs);
    out.append(
        "# HELP healthkit_check_duration_seconds Duration of the check execution in seconds.\n",
    );
    out.append("# TYPE healthkit_check_duration_seconds histogram\n");
    let ghost head = gauge_header() + gauge_lines(rs) + histogram_header();
    assert(out@ =~= head + histograms(rs.take(0)));
    let mut j: usize = 0;
    while j < results.len()
        invariant
            j <= results.len(),
            rs == reports(results@),
            out@ == head + histograms(rs.take(j as int)),
        decreases results.len() - j,
    {
        push_histogram(&mut out, &results[j]);
        proof {
            assert(rs.take(j + 1).drop_last() =~= rs.take(j as int));
            assert(out@ =~= head + histograms(rs.take(j + 1)));
        }
        j += 1;
    }
    out
}

/// Content type mandated by the text exposition format, version 0.0.4.
pub const EXPOSITION_CONTENT_TYPE: &'static str = "text/plain; version=0.0.4; charset=utf-8";

/// A rendering that was made `at` this time, counted from a fixed instant.
#[derive(Clone, Debug)]
pub struct Scrape {
    pub text: String,
    pub at: Duration,
}

/// A cache that serves the last rendering for as long as it is younger than
/// `ttl`.
#[derive(Clone, Debug)]
pub struct ScrapeCache {
    pub ttl: Duration,
    pub last: Option<Scrape>,
}

/// Shared state for the Prometheus metrics handler.
///
/// Without a cache every scrape executes all registered checks and renders the
/// results. `registry` is what the caller finds the registry by.
#[derive(Clone, Debug)]
pub struct MetricsState<R> {
    /// Registry whose checks run on a scrape.
    pub registry: R,
    /// Cache of the last scrape, if scrapes are cached.
    pub cache: Option<ScrapeCache>,
}

impl<R> MetricsState<R> {
    /// What a scrape at `now` is served without running a check.
    pub open spec fn served(self, now: nat) -> Option<Seq<char>> {
        match self.cache {
            Some(ScrapeCache { ttl, last: Some(scrape) }) if now < scrape.at@ + ttl@ => Some(
                scrape.text@,
            ),
            _ => None,
        }
    }

    /// Create handler state around a registry.
    pub fn new(registry: R) -> (state: Self)
        ensures
            state == (MetricsState { registry, cache: None }),
    {
        MetricsState { registry, cache: None }
    }

    /// Create handler state that serves a rendering again until it is `ttl`
    /// old.
    pub fn with_cache(registry: R, ttl: Duration) -> (state: Self)
        ensures
            state == (MetricsState { registry, cache: Some(ScrapeCache { ttl, last: None }) }),
    {
        MetricsState { registry, cache: Some(ScrapeCache { ttl, last: None }) }
    }

    /// The response to a scrape at `now` that the cache can serve, if it can.
    /// Otherwise the checks are to be run.
    pub fn cached(&self, now: Duration) -> (response: Option<Response>)
        ensures
            match response {
                Some(r) => self.served(now@) is Some && r@ == metrics_reply(
                    self.served(now@)->0,
                ),
                None => self.served(now@) is None,
            },
    {
        match &self.cache {
            Some(ScrapeCache { ttl, last: Some(scrape) }) => {
                if now.as_nanos() < scrape.at.as_nanos() + ttl.as_nanos() {
                    Some(exposition_response(scrape.text.clone()))
                } else {
                    None
                }
            },
            _ => None,
        }
    }
}

/// What a scrape is answered: always `200 OK`, with an exposition.
pub open spec fn metrics_reply(text: Seq<char>) -> Reply {
    Reply {
        status: StatusCode::OK,
        content: Content::Text { content_type: EXPOSITION_CONTENT_TYPE@, text },
    }
}

fn exposition_response(text: String) -> (response: Response)
    ensures
        response@ == metrics_reply(text@),
{
    Response {
        status: StatusCode::OK,
        body: Body::Text { content_type: EXPOSITION_CONTENT_TYPE, text },
    }
}

/// Answers a scrape whose checks reported `results` at `now`, and lets the
/// cache, if there is one, serve it again.
///
/// Always responds `200 OK`: a scrape must succeed even when checks report
/// unhealthy.
pub fn metrics_handler<R>(
    state: &mut MetricsState<R>,
    now: Duration,
    results: &[CheckResult],
) -> (response: Response)
    ensures
        response@ == metrics_reply(exposition(reports(results@))),
        final(state).registry == old(state).registry,
        match old(state).cache {
            None => final(state).cache is None,
            Some(cache) => {
                &&& final(state).cache is Some
                &&& final(state).cache->0.ttl == cache.ttl
                &&& final(state).cache->0.last matches Some(scrape) && {
                    &&& scrape.at == now
                    &&& scrape.text@ == exposition(reports(results@))
                }
            },
        },
{
    let text = render_prometheus(results);
    let cache = match &state.cache {
        Some(cache) => Some(
            ScrapeCache { ttl: cache.ttl, last: Some(Scrape { text: text.clone(), at: now }) },
        ),
        None => None,
    };
    state.cache = cache;
    exposition_response(text)
}

/// Returns a route handler exposing check results as Prometheus metrics
/// (`/metrics`), served from a cache for as long as a rendering is younger than
/// `ttl`.
pub fn metrics_route_with_cache<R>(registry: R, ttl: Duration) -> (route: Router<MetricsState<R>>)
    ensures
        route.path@ == "/metrics"@,
        route.handler == Handler::Metrics,
        route.state == (MetricsState { registry, cache: Some(ScrapeCache { ttl, last: None }) }),
{
    Router {
        path: "/metrics",
        handler: Handler::Metrics,
        state: MetricsState::with_cache(registry, ttl),
    }
}

/// Reads a label value up to its closing quote, as the exposition format
/// defines it: the value, and what follows the quote.
pub open spec fn read_label(text: Seq<char>) -> Option<(Seq<char>, Seq<char>)>
    decreases text.len(),
{
    if text.len() == 0 || text[0] == '\n' {
        None
    } else if text[0] == '"' {
        Some((Seq::empty(), text.drop_first()))
    } else if text[0] == '\\' {
        if text.len() < 2 || !(text[1] == '\\' || text[1] == '"' || text[1] == 'n') {
            None
        } else {
            let ch = if text[1] == 'n' {
                '\n'
            } else {
                text[1]
            };
            match read_label(text.skip(2)) {
                Some((value, rest)) => Some((seq![ch] + value, rest)),
                None => None,
            }
        }
    } else {
        match read_label(text.drop_first()) {
            Some((value, rest)) => Some((seq![text[0]] + value, rest)),
            None => None,
        }
    }
}

/// An escaped label value reads back as the value, and ends at its closing
/// quote: no name can break out of its label.
pub proof fn law_label_reads_back(value: Seq<char>, rest: Seq<char>)
    ensures
        read_label(escaped(value) + seq!['"'] + rest) == Some((value, rest)),
    decreases value.len(),
{
    let text = escaped(value) + seq!['"'] + rest;
    if value.len() == 0 {
        assert(text.drop_first() =~= rest);
        assert(value =~= Seq::empty());
    } else {
        let tail = value.drop_first();
        law_label_reads_back(tail, rest);
        let tail_text = escaped(tail) + seq!['"'] + rest;
        assert(text =~= escaped_char(value[0]) + tail_text);
        assert(seq![value[0]] + tail =~= value);
        if escaped_char(value[0]).len() == 2 {
            assert(text.skip(2) =~= tail_text);
        } else {
            assert(text.drop_first() =~= tail_text);
        }
    }
}

/// An escaped label value stays on its line.
pub proof fn law_label_has_no_newline(value: Seq<char>)
    ensures
        !escaped(value).contains('\n'),
    decreases value.len(),
{
    if value.len() > 0 {
        let tail = escaped(value.drop_first());
        law_label_has_no_newline(value.drop_first());
        let head = escaped_char(value[0]);
        if escaped(value).contains('\n') {
            let k = choose|k: int| 0 <= k < escaped(value).len() && escaped(value)[k] == '\n';
            if k >= head.len() {
                assert(tail[k - head.len()] == '\n');
            }
        }
    }
}

/// What follows `prefix` in a text that begins with it.
pub open spec fn stripped(prefix: Seq<char>, text: Seq<char>) -> Option<Seq<char>> {
    if prefix.is_prefix_of(text) {
        Some(text.skip(prefix.len() as int))
    } else {
        None
    }
}

proof fn lemma_stripped(prefix: Seq<char>, rest: Seq<char>)
    ensures
        stripped(prefix, prefix + rest) == Some(rest),
{
    assert((prefix + rest).skip(prefix.len() as int) =~= rest);
    assert((prefix + rest).subrange(0, prefix.len() as int) =~= prefix);
}

/// Reads a gauge value and the end of its line: the status, and what follows.
pub open spec fn read_healthiness(text: Seq<char>) -> Option<(HealthStatus, Seq<char>)> {
    if let Some(rest) = stripped("1\n"@, text) {
        Some((HealthStatus::Healthy, rest))
    } else if let Some(rest) = stripped("0.5\n"@, text) {
        Some((HealthStatus::Degraded, rest))
    } else if let Some(rest) = stripped("0\n"@, text) {
        Some((HealthStatus::Unhealthy, rest))
    } else {
        None
    }
}

/// Reads a gauge sample: the name of the check, its status, and what follows.
#[verifier::opaque]
pub open spec fn read_gauge(text: Seq<char>) -> Option<((Seq<char>, HealthStatus), Seq<char>)> {
    match stripped("healthkit_check_healthiness{check=\""@, text) {
        Some(label) => match read_label(label) {
            Some((name, after_label)) => match stripped("} "@, after_label) {
                Some(value) => match read_healthiness(value) {
                    Some((status, rest)) => Some(((name, status), rest)),
                    None => None,
                },
                None => None,
            },
            None => None,
        },
        None => None,
    }
}

/// Reads `n` gauge samples: names and statuses in order, and what follows.
pub open spec fn read_gauges(text: Seq<char>, n: nat) -> Option<
    (Seq<(Seq<char>, HealthStatus)>, Seq<char>),
>
    decreases n,
{
    if n == 0 {
        Some((Seq::empty(), text))
    } else {
        match read_gauge(text) {
            Some((first, after_first)) => match read_gauges(after_first, (n - 1) as nat) {
                Some((others, rest)) => Some((seq![first] + others, rest)),
                None => None,
            },
            None => None,
        }
    }
}

/// A gauge value reads back as the status it stands for.
pub proof fn law_healthiness_reads_back(status: HealthStatus, rest: Seq<char>)
    ensures
        read_healthiness(healthiness_text(status) + "\n"@ + rest) == Some((status, rest)),
{
    let text = healthiness_text(status) + "\n"@ + rest;
    reveal_strlit("1");
    reveal_strlit("0.5");
    reveal_strlit("0");
    reveal_strlit("\n");
    reveal_strlit("1\n");
    reveal_strlit("0.5\n");
    reveal_strlit("0\n");
    match status {
        HealthStatus::Healthy => {
            assert(text =~= "1\n"@ + rest);
            lemma_stripped("1\n"@, rest);
        },
        HealthStatus::Degraded => {
            assert(text =~= "0.5\n"@ + rest);
            lemma_stripped("0.5\n"@, rest);
            assert("1\n"@[0] != text[0]);
        },
        HealthStatus::Unhealthy => {
            assert(text =~= "0\n"@ + rest);
            lemma_stripped("0\n"@, rest);
            assert("1\n"@[0] != text[0]);
            assert("0.5\n"@[1] != text[1]);
        },
    }
}

/// A gauge sample reads back as the name and the status of its check.
pub proof fn law_gauge_reads_back(report: CheckReport, rest: Seq<char>)
    ensures
        read_gauge(gauge_line(report) + rest) == Some(((report.name, report.status), rest)),
{
    reveal(read_gauge);
    let value = healthiness_text(report.status) + "\n"@ + rest;
    let label = escaped(report.name) + seq!['"'] + ("} "@ + value);
    reveal_strlit("\"} ");
    reveal_strlit("} ");
    assert("\"} "@ =~= seq!['"'] + "} "@);
    let head = "healthkit_check_healthiness{check=\""@;
    assert(gauge_line(report) + rest =~= head + label);
    lemma_stripped(head, label);
    law_label_reads_back(report.name, "} "@ + value);
    lemma_stripped("} "@, value);
    law_healthiness_reads_back(report.status, rest);
}

proof fn lemma_gauge_lines_first(reports: Seq<CheckReport>)
    requires
        reports.len() > 0,
    ensures
        gauge_lines(reports) == gauge_line(reports[0]) + gauge_lines(reports.drop_first()),
    decreases reports.len(),
{
    let tail = reports.drop_first();
    if reports.len() == 1 {
        assert(gauge_lines(reports.drop_last()) =~= Seq::empty());
        assert(gauge_lines(tail) =~= Seq::empty());
        assert(gauge_lines(reports) =~= gauge_line(reports[0]) + gauge_lines(tail));
    } else {
        lemma_gauge_lines_first(reports.drop_last());
        assert(reports.drop_last().drop_first() =~= tail.drop_last());
        assert(gauge_lines(reports) =~= gauge_line(reports[0]) + gauge_lines(tail));
    }
}

/// Gauge samples read back as the names and statuses of their checks, in order.
pub proof fn law_gauges_read_back(reports: Seq<CheckReport>, rest: Seq<char>)
    ensures
        read_gauges(gauge_lines(reports) + rest, reports.len()) == Some(
            (reports.map_values(|r: CheckReport| (r.name, r.status)), rest),
        ),
    decreases reports.len(),
{
    let pairs = reports.map_values(|r: CheckReport| (r.name, r.status));
    if reports.len() == 0 {
        assert(gauge_lines(reports) + rest =~= rest);
        assert(pairs =~= Seq::empty());
    } else {
        let tail = reports.drop_first();
        lemma_gauge_lines_first(reports);
        let after_first = gauge_lines(tail) + rest;
        assert(gauge_lines(reports) + rest =~= gauge_line(reports[0]) + after_first);
        law_gauge_reads_back(reports[0], after_first);
        law_gauges_read_back(tail, rest);
        assert(pairs =~= seq![(reports[0].name, reports[0].status)] + tail.map_values(
            |r: CheckReport| (r.name, r.status),
        ));
    }
}

/// The exposition says of every check its name and its status, in order; the
/// gauge family is complete before the histogram family begins.
pub proof fn law_exposition_reads_back(reports: Seq<CheckReport>)
    ensures
        gauge_header().is_prefix_of(exposition(reports)),
        read_gauges(exposition(reports).skip(gauge_header().len() as int), reports.len()) == Some(
            (
                reports.map_values(|r: CheckReport| (r.name, r.status)),
                histogram_header() + histograms(reports),
            ),
        ),
{
    let rest = histogram_header() + histograms(reports);
    let text = exposition(reports);
    assert(text =~= gauge_header() + (gauge_lines(reports) + rest));
    assert(text.subrange(0, gauge_header().len() as int) =~= gauge_header());
    assert(text.skip(gauge_header().len() as int) =~= gauge_lines(reports) + rest);
    law_gauges_read_back(reports, rest);
}

/// Bucket bounds ascend, and buckets are cumulative: what a bucket holds every
/// higher bucket holds too, and none holds more than the one observation.
pub proof fn law_buckets_are_cumulative(i: int, j: int, nanos: nat)
    requires
        0 <= i <= j < LATENCY_BUCKETS,
    ensures
        i < j ==> bucket_nanos(i) < bucket_nanos(j),
        bucket_count(i, nanos) <= bucket_count(j, nanos) <= 1,
        bucket_count(i, nanos) == 1 <==> nanos <= bucket_nanos(i),
{
}

/// An exposition of no reports is the headers alone.
pub proof fn law_empty_exposition_is_headers()
    ensures
        exposition(Seq::empty()) == gauge_header() + histogram_header(),
{
    assert(exposition(Seq::empty()) =~= gauge_header() + histogram_header());
}

/// An exposition ends with one newline.
pub proof fn law_exposition_ends_with_newline(reports: Seq<CheckReport>)
    ensures
        exposition(reports).len() >= 2,
        exposition(reports).last() == '\n',
        exposition(reports)[exposition(reports).len() - 2] != '\n',
{
    let text = exposition(reports);
    reveal_strlit("# TYPE healthkit_check_duration_seconds histogram\n");
    reveal_strlit("\"} 1\n");
    if reports.len() == 0 {
        let tail = "# TYPE healthkit_check_duration_seconds histogram\n"@;
        assert(histograms(reports) =~= Seq::empty());
        assert(text[text.len() - 1] == tail[tail.len() - 1]);
        assert(text[text.len() - 2] == tail[tail.len() - 2]);
    } else {
        let tail = "\"} 1\n"@;
        let label = escaped(reports.last().name);
        let nanos = reports.last().duration;
        let head = gauge_header() + gauge_lines(reports) + histogram_header() + histograms(
            reports.drop_last(),
        ) + (bucket_lines(label, nanos, LATENCY_BUCKETS as nat) + infinite_bucket_line(label)
            + sum_line(label, nanos) + ("healthkit_check_duration_seconds_count{check=\""@ + label));
        assert(text =~= head + tail);
    }
}

/// A rendering that was made at `at` is served for `ttl`, and not a moment
/// longer.
pub proof fn law_scrape_is_served_until_its_ttl<R>(
    state: MetricsState<R>,
    ttl: Duration,
    scrape: Scrape,
    now: nat,
)
    requires
        state.cache == Some(ScrapeCache { ttl, last: Some(scrape) }),
    ensures
        now < scrape.at@ + ttl@ ==> state.served(now) == Some(scrape.text@),
        now >= scrape.at@ + ttl@ ==> state.served(now) is None,
{
}

/// Whatever a cache serves was rendered less than `ttl` ago.
pub proof fn law_staleness_is_bounded<R>(state: MetricsState<R>, now: nat)
    ensures
        state.served(now) matches Some(text) ==> state.cache is Some
            && state.cache->0.last is Some && {
            let cache = state.cache->0;
            &&& cache.last->0.text@ == text
            &&& now < cache.last->0.at@ + cache.ttl@
        },
{
}

/// Before the first rendering, and without a cache, every scrape runs the
/// checks.
pub proof fn law_nothing_is_served_unrendered<R>(state: MetricsState<R>, now: nat)
    requires
        match state.cache {
            Some(cache) => cache.last is None,
            None => true,
        },
    ensures
        state.served(now) is None,
{
}

/// How many lines a text ends.
pub open spec fn newlines(text: Seq<char>) -> nat
    decreases text.len(),
{
    if text.len() == 0 {
        0
    } else {
        newlines(text.drop_last()) + if text.last() == '\n' {
            1nat
        } else {
            0nat
        }
    }
}

proof fn lemma_newlines_concat(a: Seq<char>, b: Seq<char>)
    ensures
        newlines(a + b) == newlines(a) + newlines(b),
    decreases b.len(),
{
    if b.len() == 0 {
        assert(a + b =~= a);
    } else {
        lemma_newlines_concat(a, b.drop_last());
        assert((a + b).drop_last() =~= a + b.drop_last());
    }
}

proof fn lemma_no_newlines(text: Seq<char>)
    requires
        !text.contains('\n'),
    ensures
        newlines(text) == 0,
    decreases text.len(),
{
    if text.len() > 0 {
        assert(text.contains(text.last()));
        assert forall|k: int| 0 <= k < text.len() - 1 implies text.drop_last()[k] != '\n' by {
            assert(text.contains(text[k]));
        }
        lemma_no_newlines(text.drop_last());
    }
}

proof fn lemma_one_newline(text: Seq<char>)
    requires
        text.len() > 0,
        text.last() == '\n',
        !text.drop_last().contains('\n'),
    ensures
        newlines(text) == 1,
{
    lemma_no_newlines(text.drop_last());
}

proof fn lemma_header_newlines()
    ensures
        newlines(gauge_header()) == 2,
        newlines(histogram_header()) == 2,
{
    reveal_strlit(
        "# HELP healthkit_check_healthiness Health status of the check (1 = healthy, 0.5 = degraded, 0 = unhealthy).\n",
    );
    reveal_strlit("# TYPE healthkit_check_healthiness gauge\n");
    reveal_strlit(
        "# HELP healthkit_check_duration_seconds Duration of the check execution in seconds.\n",
    );
    reveal_strlit("# TYPE healthkit_check_duration_seconds histogram\n");
    let a =
        "# HELP healthkit_check_healthiness Health status of the check (1 = healthy, 0.5 = degraded, 0 = unhealthy).\n"@;
    let b = "# TYPE healthkit_check_healthiness gauge\n"@;
    let c = "# HELP healthkit_check_duration_seconds Duration of the check execution in seconds.\n"@;
    let d = "# TYPE healthkit_check_duration_seconds histogram\n"@;
    lemma_one_newline(a);
    lemma_one_newline(b);
    lemma_one_newline(c);
    lemma_one_newline(d);
    lemma_newlines_concat(a, b);
    lemma_newlines_concat(c, d);
}

/// A sample of a label value and a value that hold no newline is one line.
proof fn lemma_sample_newlines(
    head: Seq<char>,
    label: Seq<char>,
    middle: Seq<char>,
    value: Seq<char>,
)
    requires
        !head.contains('\n'),
        !label.contains('\n'),
        !middle.contains('\n'),
        !value.contains('\n'),
    ensures
        newlines(head + label + middle + value + "\n"@) == 1,
{
    reveal_strlit("\n");
    lemma_no_newlines(head);
    lemma_no_newlines(label);
    lemma_no_newlines(middle);
    lemma_no_newlines(value);
    lemma_newlines_concat(head, label);
    lemma_newlines_concat(head + label, middle);
    lemma_newlines_concat(head + label + middle, value);
    lemma_newlines_concat(head + label + middle + value, "\n"@);
    lemma_one_newline("\n"@);
}

proof fn lemma_gauge_line_newlines(report: CheckReport)
    ensures
        newlines(gauge_line(report)) == 1,
{
    reveal_strlit("healthkit_check_healthiness{check=\"");
    reveal_strlit("\"} ");
    reveal_strlit("1");
    reveal_strlit("0.5");
    reveal_strlit("0");
    law_label_has_no_newline(report.name);
    lemma_sample_newlines(
        "healthkit_check_healthiness{check=\""@,
        escaped(report.name),
        "\"} "@,
        healthiness_text(report.status),
    );
}

proof fn lemma_bucket_line_newlines(label: Seq<char>, i: int, nanos: nat)
    requires
        !label.contains('\n'),
    ensures
        newlines(bucket_line(label, i, nanos)) == 1,
{
    reveal_strlit("healthkit_check_duration_seconds_bucket{check=\"");
    reveal_strlit("\",le=\"");
    reveal_strlit("\"} ");
    reveal_strlit("1");
    reveal_strlit("0");
    let head = "healthkit_check_duration_seconds_bucket{check=\""@;
    let value = if bucket_count(i, nanos) == 1 {
        "1"@
    } else {
        "0"@
    };
    let middle = "\",le=\""@ + bucket_le(i) + "\"} "@;
    lemma_bucket_le_has_no_newline(i);
    assert(!middle.contains('\n')) by {
        if middle.contains('\n') {
            let k = choose|k: int| 0 <= k < middle.len() && middle[k] == '\n';
            let le = bucket_le(i);
            if 6 <= k < 6 + le.len() {
                assert(le.contains(le[k - 6]));
            }
        }
    }
    lemma_sample_newlines(head, label, middle, value);
    assert(bucket_line(label, i, nanos) =~= head + label + middle + value + "\n"@);
}

proof fn lemma_bucket_le_has_no_newline(i: int)
    ensures
        !bucket_le(i).contains('\n'),
{
    reveal_strlit("0.005");
    reveal_strlit("0.01");
    reveal_strlit("0.025");
    reveal_strlit("0.05");
    reveal_strlit("0.1");
    reveal_strlit("0.25");
    reveal_strlit("0.5");
    reveal_strlit("1");
    reveal_strlit("2.5");
    reveal_strlit("5");
    reveal_strlit("10");
}

proof fn lemma_bucket_lines_newlines(label: Seq<char>, nanos: nat, n: nat)
    requires
        !label.contains('\n'),
    ensures
        newlines(bucket_lines(label, nanos, n)) == n,
    decreases n,
{
    if n > 0 {
        lemma_bucket_lines_newlines(label, nanos, (n - 1) as nat);
        lemma_bucket_line_newlines(label, n - 1, nanos);
        lemma_newlines_concat(
            bucket_lines(label, nanos, (n - 1) as nat),
            bucket_line(label, n - 1, nanos),
        );
    }
}

/// A sample whose value is fixed is one line.
proof fn lemma_fixed_sample_newlines(head: Seq<char>, label: Seq<char>, tail: Seq<char>)
    requires
        !head.contains('\n'),
        !label.contains('\n'),
        newlines(tail) == 1,
    ensures
        newlines(head + label + tail) == 1,
{
    lemma_no_newlines(head);
    lemma_no_newlines(label);
    lemma_newlines_concat(head, label);
    lemma_newlines_concat(head + label, tail);
}

proof fn lemma_histogram_newlines(report: CheckReport)
    requires
        !seconds_display(report.duration).contains('\n'),
    ensures
        newlines(histogram(report)) == LATENCY_BUCKETS + 3,
{
    let label = escaped(report.name);
    let nanos = report.duration;
    let buckets = bucket_lines(label, nanos, LATENCY_BUCKETS as nat);
    law_label_has_no_newline(report.name);
    lemma_bucket_lines_newlines(label, nanos, LATENCY_BUCKETS as nat);
    reveal_strlit("healthkit_check_duration_seconds_bucket{check=\"");
    reveal_strlit("healthkit_check_duration_seconds_sum{check=\"");
    reveal_strlit("healthkit_check_duration_seconds_count{check=\"");
    reveal_strlit("\",le=\"+Inf\"} 1\n");
    reveal_strlit("\"} 1\n");
    reveal_strlit("\"} ");
    lemma_one_newline("\",le=\"+Inf\"} 1\n"@);
    lemma_one_newline("\"} 1\n"@);
    lemma_fixed_sample_newlines(
        "healthkit_check_duration_seconds_bucket{check=\""@,
        label,
        "\",le=\"+Inf\"} 1\n"@,
    );
    lemma_sample_newlines(
        "healthkit_check_duration_seconds_sum{check=\""@,
        label,
        "\"} "@,
        seconds_display(nanos),
    );
    lemma_fixed_sample_newlines(
        "healthkit_check_duration_seconds_count{check=\""@,
        label,
        "\"} 1\n"@,
    );
    let infinite = infinite_bucket_line(label);
    let sum = sum_line(label, nanos);
    lemma_newlines_concat(buckets, infinite);
    lemma_newlines_concat(buckets + infinite, sum);
    lemma_newlines_concat(buckets + infinite + sum, count_line(label));
}

proof fn lemma_families_newlines(reports: Seq<CheckReport>)
    requires
        forall|i: int|
            0 <= i < reports.len() ==> !(#[trigger] seconds_display(
                reports[i].duration,
            )).contains('\n'),
    ensures
        newlines(gauge_lines(reports)) == reports.len(),
        newlines(histograms(reports)) == (LATENCY_BUCKETS + 3) * reports.len(),
    decreases reports.len(),
{
    if reports.len() > 0 {
        let before = reports.drop_last();
        assert forall|i: int| 0 <= i < before.len() implies !(#[trigger] seconds_display(
            before[i].duration,
        )).contains('\n') by {
            assert(!seconds_display(reports[i].duration).contains('\n'));
        }
        lemma_families_newlines(before);
        lemma_gauge_line_newlines(reports.last());
        lemma_newlines_concat(gauge_lines(before), gauge_line(reports.last()));
        assert(!seconds_display(reports[reports.len() - 1].duration).contains('\n'));
        lemma_histogram_newlines(reports.last());
        lemma_newlines_concat(histograms(before), histogram(reports.last()));
    }
}

/// An exposition has the four header lines, and for each check one gauge line
/// and fourteen histogram lines: its buckets, the unbounded one, the sum and the
/// count. No name adds a line. That holds wherever the seconds are written
/// without a newline.
pub proof fn law_exposition_has_its_lines(reports: Seq<CheckReport>)
    ensures
        (forall|i: int|
            0 <= i < reports.len() ==> !(#[trigger] seconds_display(
                reports[i].duration,
            )).contains('\n')) ==> newlines(exposition(reports)) == 4 + 15 * reports.len(),
{
    if forall|i: int|
        0 <= i < reports.len() ==> !(#[trigger] seconds_display(reports[i].duration)).contains(
            '\n',
        ) {
        lemma_header_newlines();
        lemma_families_newlines(reports);
        let gauges = gauge_header() + gauge_lines(reports);
        lemma_newlines_concat(gauge_header(), gauge_lines(reports));
        lemma_newlines_concat(gauges, histogram_header());
        lemma_newlines_concat(gauges + histogram_header(), histograms(reports));
    }
}

/// Reads a text up to the first `end`: what stands before it, and what follows.
pub open spec fn read_until(text: Seq<char>, end: char) -> Option<(Seq<char>, Seq<char>)>
    decreases text.len(),
{
    if text.len() == 0 {
        None
    } else if text[0] == end {
        Some((Seq::empty(), text.drop_first()))
    } else {
        match read_until(text.drop_first(), end) {
            Some((before, rest)) => Some((seq![text[0]] + before, rest)),
            None => None,
        }
    }
}

proof fn lemma_read_until(value: Seq<char>, end: char, rest: Seq<char>)
    requires
        !value.contains(end),
    ensures
        read_until(value + seq![end] + rest, end) == Some((value, rest)),
    decreases value.len(),
{
    let text = value + seq![end] + rest;
    if value.len() == 0 {
        assert(text.drop_first() =~= rest);
        assert(value =~= Seq::empty());
    } else {
        let tail = value.drop_first();
        assert(value.contains(value[0]));
        assert(!tail.contains(end)) by {
            if tail.contains(end) {
                let k = choose|k: int| 0 <= k < tail.len() && tail[k] == end;
                assert(value[k + 1] == end);
            }
        }
        lemma_read_until(tail, end, rest);
        assert(text.drop_first() =~= tail + seq![end] + rest);
        assert(seq![value[0]] + tail =~= value);
    }
}

/// The value of a decimal digit.
pub open spec fn digit(ch: char) -> int {
    ch as int - '0' as int
}

/// The nanoseconds in a number of seconds that is written in decimal, read from
/// position `i` on; `whole` is what the digits before `i` are worth.
pub open spec fn decimal_nanos_from(text: Seq<char>, i: int, whole: int) -> int
    decreases text.len() - i,
{
    if i >= text.len() {
        whole * 1_000_000_000
    } else if text[i] == '.' {
        whole * 1_000_000_000 + fraction_nanos(text, i + 1, 100_000_000)
    } else {
        decimal_nanos_from(text, i + 1, 10 * whole + digit(text[i]))
    }
}

/// The nanoseconds in the digits from position `i` on, the first of which counts
/// `unit` nanoseconds.
pub open spec fn fraction_nanos(text: Seq<char>, i: int, unit: int) -> int
    decreases text.len() - i,
{
    if i >= text.len() {
        0
    } else {
        digit(text[i]) * unit + fraction_nanos(text, i + 1, unit / 10)
    }
}

/// The nanoseconds in a number of seconds that is written in decimal.
pub open spec fn decimal_nanos(text: Seq<char>) -> int {
    decimal_nanos_from(text, 0, 0)
}

/// A bucket sample as it reads.
pub struct BucketReading {
    pub name: Seq<char>,
    pub le: Seq<char>,
    pub count: nat,
}

/// A histogram as it reads: the bucket samples in order, the name and the text of
/// the sum, and the name and the number of the count.
pub struct HistogramReading {
    pub buckets: Seq<BucketReading>,
    pub sum: (Seq<char>, Seq<char>),
    pub count: (Seq<char>, nat),
}

/// Reads a count of the single observation and the end of its line.
pub open spec fn read_count(text: Seq<char>) -> Option<(nat, Seq<char>)> {
    if let Some(rest) = stripped("1\n"@, text) {
        Some((1, rest))
    } else if let Some(rest) = stripped("0\n"@, text) {
        Some((0, rest))
    } else {
        None
    }
}

/// Reads the start of a sample up to its label value: the value, and what
/// follows its closing quote.
pub open spec fn read_sample(metric: Seq<char>, text: Seq<char>) -> Option<
    (Seq<char>, Seq<char>),
> {
    match stripped(metric + "{check=\""@, text) {
        Some(label) => read_label(label),
        None => None,
    }
}

/// Reads a bucket sample, and what follows.
#[verifier::opaque]
pub open spec fn read_bucket(text: Seq<char>) -> Option<(BucketReading, Seq<char>)> {
    match read_sample("healthkit_check_duration_seconds_bucket"@, text) {
        Some((name, after_name)) => match stripped(",le=\""@, after_name) {
            Some(bound) => match read_until(bound, '"') {
                Some((le, after_le)) => match stripped("} "@, after_le) {
                    Some(value) => match read_count(value) {
                        Some((count, rest)) => Some((BucketReading { name, le, count }, rest)),
                        None => None,
                    },
                    None => None,
                },
                None => None,
            },
            None => None,
        },
        None => None,
    }
}

/// Reads `n` bucket samples, and what follows.
pub open spec fn read_buckets(text: Seq<char>, n: nat) -> Option<(Seq<BucketReading>, Seq<char>)>
    decreases n,
{
    if n == 0 {
        Some((Seq::empty(), text))
    } else {
        match read_bucket(text) {
            Some((first, after_first)) => match read_buckets(after_first, (n - 1) as nat) {
                Some((others, rest)) => Some((seq![first] + others, rest)),
                None => None,
            },
            None => None,
        }
    }
}

/// Reads the sample of a sum: the name of the check, the text of the sum, and
/// what follows.
#[verifier::opaque]
pub open spec fn read_sum(text: Seq<char>) -> Option<((Seq<char>, Seq<char>), Seq<char>)> {
    match read_sample("healthkit_check_duration_seconds_sum"@, text) {
        Some((name, after_name)) => match stripped("} "@, after_name) {
            Some(value) => match read_until(value, '\n') {
                Some((seconds, rest)) => Some(((name, seconds), rest)),
                None => None,
            },
            None => None,
        },
        None => None,
    }
}

/// Reads the sample of a count: the name of the check, the count, and what
/// follows.
#[verifier::opaque]
pub open spec fn read_total(text: Seq<char>) -> Option<((Seq<char>, nat), Seq<char>)> {
    match read_sample("healthkit_check_duration_seconds_count"@, text) {
        Some((name, after_name)) => match stripped("} "@, after_name) {
            Some(value) => match read_count(value) {
                Some((count, rest)) => Some(((name, count), rest)),
                None => None,
            },
            None => None,
        },
        None => None,
    }
}

/// Reads a histogram: twelve buckets, the sum and the count, and what follows.
#[verifier::opaque]
pub open spec fn read_histogram(text: Seq<char>) -> Option<(HistogramReading, Seq<char>)> {
    match read_buckets(text, 12) {
        Some((buckets, after_buckets)) => match read_sum(after_buckets) {
            Some((sum, after_sum)) => match read_total(after_sum) {
                Some((count, rest)) => Some((HistogramReading { buckets, sum, count }, rest)),
                None => None,
            },
            None => None,
        },
        None => None,
    }
}

/// Reads `n` histograms, and what follows.
pub open spec fn read_histograms(text: Seq<char>, n: nat) -> Option<
    (Seq<HistogramReading>, Seq<char>),
>
    decreases n,
{
    if n == 0 {
        Some((Seq::empty(), text))
    } else {
        match read_histogram(text) {
            Some((first, after_first)) => match read_histograms(after_first, (n - 1) as nat) {
                Some((others, rest)) => Some((seq![first] + others, rest)),
                None => None,
            },
            None => None,
        }
    }
}

/// The upper bounds, in nanoseconds, of the finite buckets.
pub open spec fn standard_bounds() -> Seq<int> {
    seq![
        5_000_000,
        10_000_000,
        25_000_000,
        50_000_000,
        100_000_000,
        250_000_000,
        500_000_000,
        1_000_000_000,
        2_500_000_000,
        5_000_000_000,
        10_000_000_000,
    ]
}

/// Whether a histogram is that of one observation of `nanos` nanoseconds by the
/// check `name`, whose seconds are written `seconds`.
pub open spec fn shows_observation(
    reading: HistogramReading,
    name: Seq<char>,
    nanos: nat,
    seconds: Seq<char>,
) -> bool {
    &&& reading.buckets.len() == 12
    &&& forall|j: int| 0 <= j < 12 ==> (#[trigger] reading.buckets[j]).name == name
    &&& forall|j: int|
        0 <= j < 11 ==> {
            &&& decimal_nanos((#[trigger] reading.buckets[j]).le) == standard_bounds()[j]
            &&& reading.buckets[j].count == if nanos <= decimal_nanos(reading.buckets[j].le) {
                1nat
            } else {
                0nat
            }
        }
    &&& reading.buckets[11].le == "+Inf"@
    &&& reading.buckets[11].count == 1
    &&& reading.sum == (name, seconds)
    &&& reading.count == (name, 1nat)
}

/// The label of every finite bucket says its bound in seconds, and the bounds are
/// the standard ones.
pub proof fn law_bucket_labels_say_their_bounds(i: int)
    requires
        0 <= i < LATENCY_BUCKETS,
    ensures
        decimal_nanos(bucket_le(i)) == standard_bounds()[i],
        bucket_nanos(i) == standard_bounds()[i],
{
    reveal_strlit("0.005");
    reveal_strlit("0.01");
    reveal_strlit("0.025");
    reveal_strlit("0.05");
    reveal_strlit("0.1");
    reveal_strlit("0.25");
    reveal_strlit("0.5");
    reveal_strlit("1");
    reveal_strlit("2.5");
    reveal_strlit("5");
    reveal_strlit("10");
    reveal_with_fuel(decimal_nanos_from, 4);
    reveal_with_fuel(fraction_nanos, 5);
}

proof fn lemma_read_count(one: bool, rest: Seq<char>)
    ensures
        read_count((if one { "1"@ } else { "0"@ }) + "\n"@ + rest) == Some(
            (if one { 1nat } else { 0nat }, rest),
        ),
{
    reveal_strlit("1");
    reveal_strlit("0");
    reveal_strlit("\n");
    reveal_strlit("1\n");
    reveal_strlit("0\n");
    let text = (if one { "1"@ } else { "0"@ }) + "\n"@ + rest;
    if one {
        assert(text =~= "1\n"@ + rest);
        lemma_stripped("1\n"@, rest);
    } else {
        assert(text =~= "0\n"@ + rest);
        lemma_stripped("0\n"@, rest);
        assert("1\n"@[0] != text[0]);
    }
}

proof fn lemma_read_sample(metric: Seq<char>, name: Seq<char>, rest: Seq<char>)
    ensures
        read_sample(metric, metric + "{check=\""@ + escaped(name) + seq!['"'] + rest) == Some(
            (name, rest),
        ),
{
    let head = metric + "{check=\""@;
    let label = escaped(name) + seq!['"'] + rest;
    assert(head + escaped(name) + seq!['"'] + rest =~= head + label);
    lemma_stripped(head, label);
    law_label_reads_back(name, rest);
}

proof fn lemma_metric_heads()
    ensures
        "healthkit_check_duration_seconds_bucket{check=\""@
            == "healthkit_check_duration_seconds_bucket"@ + "{check=\""@,
        "healthkit_check_duration_seconds_sum{check=\""@
            == "healthkit_check_duration_seconds_sum"@ + "{check=\""@,
        "healthkit_check_duration_seconds_count{check=\""@
            == "healthkit_check_duration_seconds_count"@ + "{check=\""@,
{
    reveal_strlit("{check=\"");
    reveal_strlit("healthkit_check_duration_seconds_bucket");
    reveal_strlit("healthkit_check_duration_seconds_bucket{check=\"");
    reveal_strlit("healthkit_check_duration_seconds_sum");
    reveal_strlit("healthkit_check_duration_seconds_sum{check=\"");
    reveal_strlit("healthkit_check_duration_seconds_count");
    reveal_strlit("healthkit_check_duration_seconds_count{check=\"");
    assert("healthkit_check_duration_seconds_bucket{check=\""@
        =~= "healthkit_check_duration_seconds_bucket"@ + "{check=\""@);
    assert("healthkit_check_duration_seconds_sum{check=\""@
        =~= "healthkit_check_duration_seconds_sum"@ + "{check=\""@);
    assert("healthkit_check_duration_seconds_count{check=\""@
        =~= "healthkit_check_duration_seconds_count"@ + "{check=\""@);
}

proof fn lemma_read_bucket(name: Seq<char>, le: Seq<char>, one: bool, rest: Seq<char>)
    requires
        !le.contains('"'),
    ensures
        read_bucket(
            "healthkit_check_duration_seconds_bucket{check=\""@ + escaped(name) + "\",le=\""@ + le
                + "\"} "@ + (if one { "1"@ } else { "0"@ }) + "\n"@ + rest,
        ) == Some((BucketReading { name, le, count: if one { 1nat } else { 0nat } }, rest)),
{
    reveal(read_bucket);
    let metric = "healthkit_check_duration_seconds_bucket"@;
    let head = "healthkit_check_duration_seconds_bucket{check=\""@;
    let digits = if one {
        "1"@
    } else {
        "0"@
    };
    let value = digits + "\n"@ + rest;
    let after_le = "} "@ + value;
    let bound = le + seq!['"'] + after_le;
    let after_name = ",le=\""@ + bound;
    lemma_metric_heads();
    reveal_strlit("\",le=\"");
    reveal_strlit(",le=\"");
    reveal_strlit("\"} ");
    reveal_strlit("} ");
    assert("\",le=\""@ =~= seq!['"'] + ",le=\""@);
    assert("\"} "@ =~= seq!['"'] + "} "@);
    let text = head + escaped(name) + "\",le=\""@ + le + "\"} "@ + digits + "\n"@ + rest;
    assert(text =~= head + escaped(name) + seq!['"'] + after_name);
    lemma_read_sample(metric, name, after_name);
    lemma_stripped(",le=\""@, bound);
    lemma_read_until(le, '"', after_le);
    lemma_stripped("} "@, value);
    lemma_read_count(one, rest);
}

/// The finite buckets of an observation, as they read.
spec fn bucket_readings(name: Seq<char>, nanos: nat, n: nat) -> Seq<BucketReading> {
    Seq::new(
        n,
        |j: int| BucketReading { name, le: bucket_le(j), count: bucket_count(j, nanos) },
    )
}

proof fn lemma_bucket_le_has_no_quote(i: int)
    ensures
        !bucket_le(i).contains('"'),
{
    reveal_strlit("0.005");
    reveal_strlit("0.01");
    reveal_strlit("0.025");
    reveal_strlit("0.05");
    reveal_strlit("0.1");
    reveal_strlit("0.25");
    reveal_strlit("0.5");
    reveal_strlit("1");
    reveal_strlit("2.5");
    reveal_strlit("5");
    reveal_strlit("10");
}

proof fn lemma_read_buckets(
    name: Seq<char>,
    nanos: nat,
    n: nat,
    text: Seq<char>,
    m: nat,
    others: Seq<BucketReading>,
    rest: Seq<char>,
)
    requires
        read_buckets(text, m) == Some((others, rest)),
    ensures
        read_buckets(bucket_lines(escaped(name), nanos, n) + text, n + m) == Some(
            (bucket_readings(name, nanos, n) + others, rest),
        ),
    decreases n,
{
    let lines = bucket_lines(escaped(name), nanos, n);
    if n == 0 {
        assert(lines + text =~= text);
        assert(bucket_readings(name, nanos, n) + others =~= others);
    } else {
        let i = n - 1;
        let line = bucket_line(escaped(name), i, nanos);
        let one = bucket_count(i, nanos) == 1;
        let reading = BucketReading { name, le: bucket_le(i), count: bucket_count(i, nanos) };
        lemma_bucket_le_has_no_quote(i);
        lemma_read_bucket(name, bucket_le(i), one, text);
        assert(read_bucket(line + text) == Some((reading, text)));
        assert(read_buckets(line + text, m + 1) == Some((seq![reading] + others, rest)));
        lemma_read_buckets(name, nanos, i as nat, line + text, m + 1, seq![reading] + others, rest);
        assert(lines + text =~= bucket_lines(escaped(name), nanos, i as nat) + (line + text));
        assert(bucket_readings(name, nanos, i as nat) + (seq![reading] + others)
            =~= bucket_readings(name, nanos, n) + others);
    }
}

proof fn lemma_read_sum(name: Seq<char>, seconds: Seq<char>, rest: Seq<char>)
    requires
        !seconds.contains('\n'),
    ensures
        read_sum(sum_text(escaped(name), seconds) + rest) == Some(((name, seconds), rest)),
{
    reveal(read_sum);
    lemma_metric_heads();
    reveal_strlit("\"} ");
    reveal_strlit("} ");
    reveal_strlit("\n");
    assert("\"} "@ =~= seq!['"'] + "} "@);
    assert("\n"@ =~= seq!['\n']);
    let value = seconds + seq!['\n'] + rest;
    let after_name = "} "@ + value;
    assert(sum_text(escaped(name), seconds) + rest
        =~= "healthkit_check_duration_seconds_sum{check=\""@ + escaped(name) + seq!['"']
        + after_name);
    lemma_read_sample("healthkit_check_duration_seconds_sum"@, name, after_name);
    lemma_stripped("} "@, value);
    lemma_read_until(seconds, '\n', rest);
}

proof fn lemma_read_total(name: Seq<char>, rest: Seq<char>)
    ensures
        read_total(count_line(escaped(name)) + rest) == Some(((name, 1nat), rest)),
{
    reveal(read_total);
    lemma_metric_heads();
    reveal_strlit("\"} 1\n");
    reveal_strlit("} ");
    reveal_strlit("1");
    reveal_strlit("\n");
    let value = "1"@ + "\n"@ + rest;
    let after_name = "} "@ + value;
    assert("\"} 1\n"@ =~= seq!['"'] + "} "@ + "1"@ + "\n"@);
    assert(count_line(escaped(name)) + rest
        =~= "healthkit_check_duration_seconds_count{check=\""@ + escaped(name) + seq!['"']
        + after_name);
    lemma_read_sample("healthkit_check_duration_seconds_count"@, name, after_name);
    lemma_stripped("} "@, value);
    lemma_read_count(true, rest);
}

proof fn lemma_infinite_bucket(name: Seq<char>, rest: Seq<char>)
    ensures
        read_buckets(infinite_bucket_line(escaped(name)) + rest, 1) == Some(
            (seq![BucketReading { name, le: "+Inf"@, count: 1 }], rest),
        ),
{
    reveal_strlit("+Inf");
    reveal_strlit("\",le=\"+Inf\"} 1\n");
    reveal_strlit("\",le=\"");
    reveal_strlit("\"} ");
    reveal_strlit("1");
    reveal_strlit("\n");
    assert("\",le=\"+Inf\"} 1\n"@ =~= "\",le=\""@ + "+Inf"@ + "\"} "@ + "1"@ + "\n"@);
    lemma_read_bucket(name, "+Inf"@, true, rest);
    assert(infinite_bucket_line(escaped(name)) + rest
        =~= "healthkit_check_duration_seconds_bucket{check=\""@ + escaped(name) + "\",le=\""@
        + "+Inf"@ + "\"} "@ + "1"@ + "\n"@ + rest);
    let reading = BucketReading { name, le: "+Inf"@, count: 1 };
    assert(read_buckets(rest, 0) == Some((Seq::<BucketReading>::empty(), rest)));
    assert(seq![reading] + Seq::<BucketReading>::empty() =~= seq![reading]);
}

/// The histogram of a check reads back as the one observation that its report
/// makes: under its name, in every bucket whose label is not below its duration
/// and in no other, and with its seconds as the sum.
pub proof fn law_histogram_reads_back(report: CheckReport, rest: Seq<char>)
    ensures
        !seconds_display(report.duration).contains('\n') ==> (read_histogram(
            histogram(report) + rest,
        ) matches Some((reading, after)) && after == rest && shows_observation(
            reading,
            report.name,
            report.duration,
            seconds_display(report.duration),
        )),
{
    if !seconds_display(report.duration).contains('\n') {
        reveal(read_histogram);
        let name = report.name;
        let nanos = report.duration;
        let label = escaped(name);
        let seconds = seconds_display(nanos);
        let infinite = BucketReading { name, le: "+Inf"@, count: 1 };
        let total = count_line(label) + rest;
        let sum = sum_text(label, seconds) + total;
        lemma_read_total(name, rest);
        lemma_read_sum(name, seconds, total);
        lemma_infinite_bucket(name, sum);
        lemma_read_buckets(
            name,
            nanos,
            11,
            infinite_bucket_line(label) + sum,
            1,
            seq![infinite],
            sum,
        );
        assert(histogram(report) + rest =~= bucket_lines(label, nanos, 11) + (infinite_bucket_line(
            label,
        ) + sum));
        let buckets = bucket_readings(name, nanos, 11) + seq![infinite];
        let reading = HistogramReading { buckets, sum: (name, seconds), count: (name, 1nat) };
        assert(read_histogram(histogram(report) + rest) == Some((reading, rest)));
        assert forall|j: int| 0 <= j < 11 implies {
            &&& decimal_nanos((#[trigger] reading.buckets[j]).le) == standard_bounds()[j]
            &&& reading.buckets[j].count == if nanos <= decimal_nanos(reading.buckets[j].le) {
                1nat
            } else {
                0nat
            }
        } by {
            law_bucket_labels_say_their_bounds(j);
        }
    }
}

/// What is rendered of some reports and then of others is what is rendered of all
/// of them: nothing that is rendered of a check depends on another one.
pub proof fn law_samples_are_rendered_apart(a: Seq<CheckReport>, b: Seq<CheckReport>)
    ensures
        gauge_lines(a + b) == gauge_lines(a) + gauge_lines(b),
        histograms(a + b) == histograms(a) + histograms(b),
    decreases b.len(),
{
    if b.len() == 0 {
        assert(a + b =~= a);
        assert(gauge_lines(a) + gauge_lines(b) =~= gauge_lines(a));
        assert(histograms(a) + histograms(b) =~= histograms(a));
    } else {
        law_samples_are_rendered_apart(a, b.drop_last());
        assert((a + b).drop_last() =~= a + b.drop_last());
        assert(gauge_lines(a + b) =~= gauge_lines(a) + gauge_lines(b));
        assert(histograms(a + b) =~= histograms(a) + histograms(b));
    }
}

/// Histograms read back in order, each as the observation of its own report.
pub proof fn law_histograms_read_back(reports: Seq<CheckReport>, rest: Seq<char>)
    ensures
        (forall|i: int|
            0 <= i < reports.len() ==> !(#[trigger] seconds_display(
                reports[i].duration,
            )).contains('\n')) ==> (read_histograms(
            histograms(reports) + rest,
            reports.len(),
        ) matches Some((readings, after)) && after == rest && readings.len() == reports.len()
            && forall|i: int|
            0 <= i < reports.len() ==> shows_observation(
                #[trigger] readings[i],
                reports[i].name,
                reports[i].duration,
                seconds_display(reports[i].duration),
            )),
    decreases reports.len(),
{
    if forall|i: int|
        0 <= i < reports.len() ==> !(#[trigger] seconds_display(reports[i].duration)).contains(
            '\n',
        ) {
        if reports.len() == 0 {
            assert(histograms(reports) + rest =~= rest);
        } else {
            let first = reports[0];
            let tail = reports.drop_first();
            assert forall|i: int| 0 <= i < tail.len() implies !(#[trigger] seconds_display(
                tail[i].duration,
            )).contains('\n') by {
                assert(!seconds_display(reports[i + 1].duration).contains('\n'));
            }
            assert(!seconds_display(reports[0].duration).contains('\n'));
            law_samples_are_rendered_apart(seq![first], tail);
            assert(seq![first] + tail =~= reports);
            let single = seq![first];
            assert(single.last() == first);
            assert(histograms(single.drop_last()) =~= Seq::empty());
            assert(histograms(single) =~= histogram(first));
            let after_first = histograms(tail) + rest;
            assert(histograms(reports) + rest =~= histogram(first) + after_first);
            law_histogram_reads_back(first, after_first);
            law_histograms_read_back(tail, rest);
            let (reading, _) = read_histogram(histogram(first) + after_first)->0;
            let (others, _) = read_histograms(after_first, tail.len())->0;
            let readings = seq![reading] + others;
            assert(read_histograms(histograms(reports) + rest, reports.len()) == Some(
                (readings, rest),
            ));
            assert forall|i: int| 0 <= i < reports.len() implies shows_observation(
                #[trigger] readings[i],
                reports[i].name,
                reports[i].duration,
                seconds_display(reports[i].duration),
            ) by {
                if i > 0 {
                    assert(readings[i] == others[i - 1]);
                    assert(reports[i] == tail[i - 1]);
                }
            }
        }
    }
}

/// Reads an exposition of `n` checks: the headers and the samples of the gauge
/// family, those of the histogram family, and nothing else.
pub open spec fn read_exposition(text: Seq<char>, n: nat) -> Option<
    (Seq<(Seq<char>, HealthStatus)>, Seq<HistogramReading>),
> {
    match stripped(
        "# HELP healthkit_check_healthiness Health status of the check (1 = healthy, 0.5 = degraded, 0 = unhealthy).\n"@
            + "# TYPE healthkit_check_healthiness gauge\n"@,
        text,
    ) {
        Some(after_header) => match read_gauges(after_header, n) {
            Some((gauges, after_gauges)) => match stripped(
                "# HELP healthkit_check_duration_seconds Duration of the check execution in seconds.\n"@
                    + "# TYPE healthkit_check_duration_seconds histogram\n"@,
                after_gauges,
            ) {
                Some(samples) => match read_histograms(samples, n) {
                    Some((readings, rest)) => if rest.len() == 0 {
                        Some((gauges, readings))
                    } else {
                        None
                    },
                    None => None,
                },
                None => None,
            },
            None => None,
        },
        None => None,
    }
}

/// An exposition says of every check, in order, its name, its status and the one
/// observation of its own duration, and nothing else.
pub proof fn law_exposition_tells_every_report(reports: Seq<CheckReport>)
    ensures
        (forall|i: int|
            0 <= i < reports.len() ==> !(#[trigger] seconds_display(
                reports[i].duration,
            )).contains('\n')) ==> (read_exposition(
            exposition(reports),
            reports.len(),
        ) matches Some((gauges, readings)) && gauges.len() == reports.len() && readings.len()
            == reports.len() && forall|i: int|
            0 <= i < reports.len() ==> {
                &&& gauges[i] == (reports[i].name, reports[i].status)
                &&& shows_observation(
                    #[trigger] readings[i],
                    reports[i].name,
                    reports[i].duration,
                    seconds_display(reports[i].duration),
                )
            }),
{
    let samples = histograms(reports);
    let after_gauges = histogram_header() + samples;
    let after_header = gauge_lines(reports) + after_gauges;
    assert(exposition(reports) =~= gauge_header() + after_header);
    lemma_stripped(gauge_header(), after_header);
    law_gauges_read_back(reports, after_gauges);
    lemma_stripped(histogram_header(), samples);
    assert(samples + Seq::<char>::empty() =~= samples);
    law_histograms_read_back(reports, Seq::empty());
}

/// Every scrape is answered `200` with the exposition it is given, under the
/// content type of the format.
pub proof fn law_scrape_always_succeeds(text: Seq<char>)
    ensures
        metrics_reply(text).status.number() == 200,
        metrics_reply(text).content == (Content::Text {
            content_type: "text/plain; version=0.0.4; charset=utf-8"@,
            text,
        }),
{
}

/// Whether the seconds of every result are written on one line.
pub open spec fn seconds_stay_on_their_line(results: Seq<CheckResult>) -> bool {
    forall|i: int|
        0 <= i < results.len() ==> !seconds_display((#[trigger] results[i]).duration@).contains(
            '\n',
        )
}

/// Whether gauges and histograms are those of some results: of each, in order,
/// its name, its status and the one observation of its own duration.
pub open spec fn tell_the_results(
    gauges: Seq<(Seq<char>, HealthStatus)>,
    readings: Seq<HistogramReading>,
    results: Seq<CheckResult>,
) -> bool {
    &&& gauges.len() == results.len()
    &&& readings.len() == results.len()
    &&& forall|i: int|
        0 <= i < results.len() ==> {
            &&& gauges[i] == ((#[trigger] results[i]).name@, results[i].status)
            &&& shows_observation(
                readings[i],
                results[i].name@,
                results[i].duration@,
                seconds_display(results[i].duration@),
            )
        }
}

/// What a call of `render_prometheus` returns reads back as the results that it
/// was given.
pub proof fn law_rendering_tells_every_result(results: &[CheckResult], out: String)
    requires
        call_ensures(render_prometheus, (results,), out),
    ensures
        seconds_stay_on_their_line(results@) ==> (read_exposition(
            out@,
            results@.len(),
        ) matches Some((gauges, readings)) && tell_the_results(gauges, readings, results@)),
{
    let told = reports(results@);
    crate::types::law_reports_are_the_results(results@);
    if seconds_stay_on_their_line(results@) {
        assert forall|i: int| 0 <= i < told.len() implies !(#[trigger] seconds_display(
            told[i].duration,
        )).contains('\n') by {
            assert(told[i] == results@[i]@);
        }
        law_exposition_tells_every_report(told);
        let (gauges, readings) = read_exposition(out@, results@.len())->0;
        assert forall|i: int| 0 <= i < results@.len() implies {
            &&& gauges[i] == ((#[trigger] results@[i]).name@, results@[i].status)
            &&& shows_observation(
                readings[i],
                results@[i].name@,
                results@[i].duration@,
                seconds_display(results@[i].duration@),
            )
        } by {
            assert(told[i] == results@[i]@);
            assert(shows_observation(
                readings[i],
                told[i].name,
                told[i].duration,
                seconds_display(told[i].duration),
            ));
        }
        assert(tell_the_results(gauges, readings, results@));
    }
}

/// What a call of `cached` returns: the cached text, answered `200`, exactly if
/// there is one that was rendered less than `ttl` before `now`.
pub proof fn law_cache_answers_while_young<R>(
    state: MetricsState<R>,
    now: Duration,
    response: Option<Response>,
)
    requires
        call_ensures(MetricsState::<R>::cached, (&state, now), response),
    ensures
        response is Some <==> (state.cache matches Some(cache) && cache.last matches Some(scrape)
            && now@ < scrape.at@ + cache.ttl@),
        response matches Some(answer) ==> {
            &&& answer.status.number() == 200
            &&& answer.body matches Body::Text { content_type, text } && content_type@
                == "text/plain; version=0.0.4; charset=utf-8"@ && text@
                == state.cache->0.last->0.text@
        },
{
}

} // verus!
