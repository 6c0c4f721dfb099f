//! Routes and responses of the health check endpoints.
//!
//! A route says at which path it answers, which handler answers it and with
//! what state. A handler turns what a sweep reported into a [`Response`].
use vstd::prelude::*;

use crate::error::HealthCheckError;
use crate::metrics::MetricsState;
use crate::registry::{
    aggregate, amounts_to, run_fails, run_is_degraded, sweep_reports, swept, CheckEntry, CheckRun, HealthRegistry, Outcome,
    RegisteredCheck, RegistryState,
};
use crate::types::{
    opt_text, reports, statuses, worst, CheckReport, CheckResult, HealthResponse, HealthStatus,
    LivenessResponse, ReadinessResponse,
};

pub use crate::metrics::metrics_route_with_cache;

verus! {

/// The HTTP statuses that the routes answer with.
#[derive(Clone, Copy, Debug, PartialEq, Eq, Structural)]
pub enum StatusCode {
    OK,
    ServiceUnavailable,
    InternalServerError,
}

impl StatusCode {
    /// The number of the status.
    pub open spec fn number(self) -> int {
        match self {
            StatusCode::OK => 200,
            StatusCode::ServiceUnavailable => 503,
            StatusCode::InternalServerError => 500,
        }
    }

    /// The number of the status.
    pub fn as_u16(self) -> (number: u16)
        ensures
            number == self.number(),
    {
        match self {
            StatusCode::OK => 200,
            StatusCode::ServiceUnavailable => 503,
            StatusCode::InternalServerError => 500,
        }
    }
}

/// The body of a response.
#[derive(Debug)]
pub enum Body {
    Empty,
    /// Text, sent as it stands.
    Text { content_type: &'static str, text: String },
    /// Sent as JSON.
    Liveness(LivenessResponse),
    /// Sent as JSON.
    Health(HealthResponse),
    /// Sent as JSON.
    Readiness(ReadinessResponse),
}

/// What a body says.
pub enum Content {
    Empty,
    Text { content_type: Seq<char>, text: Seq<char> },
    Liveness(HealthStatus),
    Health(HealthStatus),
    Readiness(HealthStatus, Seq<CheckReport>),
}

/// The response of a route.
#[derive(Debug)]
pub struct Response {
    pub status: StatusCode,
    pub body: Body,
}

/// What a response says.
pub struct Reply {
    pub status: StatusCode,
    pub content: Content,
}

impl View for Body {
    type V = Content;

    open spec fn view(&self) -> Content {
        match self {
            Body::Empty => Content::Empty,
            Body::Text { content_type, text } => Content::Text {
                content_type: content_type@,
                text: text@,
            },
            Body::Liveness(r) => Content::Liveness(r.status),
            Body::Health(r) => Content::Health(r.status),
            Body::Readiness(r) => Content::Readiness(r.status, reports(r.checks@)),
        }
    }
}

impl View for Response {
    type V = Reply;

    open spec fn view(&self) -> Reply {
        Reply { status: self.status, content: self.body@ }
    }
}

/// Configuration for readiness-style routes (`/readyz`, `/healthz/detailed`).
///
/// By default a `Degraded` aggregate responds `200 OK`: Kubernetes and load
/// balancers keep routing to a pod whose dependencies are merely slow. Enable
/// [`degraded_fails_readiness`](ReadinessConfig::degraded_fails_readiness) for
/// the strict alternative: degraded pods are drained from the pool while the
/// response body continues to report the degraded detail. `Unhealthy`
/// aggregates respond `503` either way.
#[derive(Clone, Copy, Debug)]
pub struct ReadinessConfig {
    /// When `true`, a `Degraded` aggregate responds `503 Service Unavailable`
    /// instead of `200 OK`.
    pub degraded_fails_readiness: bool,
}

impl Default for ReadinessConfig {
    /// Create the default configuration (`Degraded` responds `200 OK`).
    fn default() -> (config: Self)
        ensures
            config == (ReadinessConfig { degraded_fails_readiness: false }),
    {
        ReadinessConfig { degraded_fails_readiness: false }
    }
}

impl ReadinessConfig {
    /// Create the default configuration (`Degraded` responds `200 OK`).
    pub fn new() -> (config: Self)
        ensures
            config == (ReadinessConfig { degraded_fails_readiness: false }),
    {
        ReadinessConfig::default()
    }

    /// Map `Degraded` aggregates to `503 Service Unavailable` (strict
    /// readiness: degraded pods stop receiving traffic).
    #[must_use]
    pub fn degraded_fails_readiness(self) -> (config: Self)
        ensures
            config == (ReadinessConfig { degraded_fails_readiness: true }),
    {
        ReadinessConfig { degraded_fails_readiness: true }
    }
}

/// A stateless handler, which answers `GET` at the path where it is mounted.
#[derive(Clone, Copy, Debug, PartialEq, Eq, Structural)]
pub enum MethodRouter {
    Liveness,
    Ping,
}

impl MethodRouter {
    /// Answers a request.
    pub fn respond(self) -> (response: Response)
        ensures
            response@ == match self {
                MethodRouter::Liveness => liveness_reply(),
                MethodRouter::Ping => ping_reply(),
            },
    {
        match self {
            MethodRouter::Liveness => liveness_handler(),
            MethodRouter::Ping => ping_handler(),
        }
    }
}

/// The handlers that have a state. Each answers `GET`.
#[derive(Clone, Copy, Debug, PartialEq, Eq, Structural)]
pub enum Handler {
    Readiness,
    Startup,
    Detailed,
    Metrics,
}

/// A handler mounted at a path, with its state.
#[derive(Clone, Debug)]
pub struct Router<S> {
    pub path: &'static str,
    pub handler: Handler,
    pub state: S,
}

/// Shared state for the readiness and detailed handlers; `registry` is what
/// the caller finds the registry by.
#[derive(Clone, Debug)]
pub struct HealthState<R> {
    pub registry: R,
    pub config: ReadinessConfig,
}

/// Shared state for the startup handler, which may be scoped to a group.
#[derive(Clone, Debug)]
pub struct StartupState<R> {
    pub registry: R,
    pub group: Option<String>,
}

/// Returns a route handler for liveness probes (`/healthz`).
///
/// Liveness checks verify the process is running and not deadlocked. They run
/// no checks.
pub fn liveness_route() -> (route: MethodRouter)
    ensures
        route == MethodRouter::Liveness,
{
    MethodRouter::Liveness
}

/// Returns a constant-body route for load-balancer health checks (`/ping`).
///
/// Responds `200 OK` with the constant body `OK` (`text/plain`) for as long as
/// the process can serve HTTP.
pub fn ping_route() -> (route: MethodRouter)
    ensures
        route == MethodRouter::Ping,
{
    MethodRouter::Ping
}

/// Returns a route handler for readiness probes (`/readyz`).
///
/// Uses the default [`ReadinessConfig`]: a `Degraded` aggregate responds `200`.
/// See [`readiness_route_with`] to customize.
pub fn readiness_route<R>(registry: R) -> (route: Router<HealthState<R>>)
    ensures
        route.path@ == "/readyz"@,
        route.handler == Handler::Readiness,
        route.state == (HealthState {
            registry,
            config: ReadinessConfig { degraded_fails_readiness: false },
        }),
{
    readiness_route_with(registry, ReadinessConfig::default())
}

/// Like [`readiness_route`], with explicit [`ReadinessConfig`].
pub fn readiness_route_with<R>(registry: R, config: ReadinessConfig) -> (route: Router<
    HealthState<R>,
>)
    ensures
        route.path@ == "/readyz"@,
        route.handler == Handler::Readiness,
        route.state == (HealthState { registry, config }),
{
    Router {
        path: "/readyz",
        handler: Handler::Readiness,
        state: HealthState { registry, config },
    }
}

/// Returns a route handler for startup probes (`/startupz`).
///
/// Runs **all** registered checks; for an init-only subset see
/// [`startup_route_for_group`].
pub fn startup_route<R>(registry: R) -> (route: Router<StartupState<R>>)
    ensures
        route.path@ == "/startupz"@,
        route.handler == Handler::Startup,
        route.state.registry == registry,
        route.state.group is None,
{
    startup_route_for_group_inner(registry, None)
}

/// Returns a route handler for startup probes restricted to a check group
/// (`/startupz`).
///
/// Only checks registered under `group` run for this route. Unregistered and
/// empty groups respond `200` (no checks = nothing failed).
pub fn startup_route_for_group<R>(registry: R, group: &str) -> (route: Router<StartupState<R>>)
    ensures
        route.path@ == "/startupz"@,
        route.handler == Handler::Startup,
        route.state.registry == registry,
        opt_text(route.state.group) == Some(group@),
{
    startup_route_for_group_inner(registry, Some(group.to_owned()))
}

fn startup_route_for_group_inner<R>(registry: R, group: Option<String>) -> (route: Router<
    StartupState<R>,
>)
    ensures
        route.path@ == "/startupz"@,
        route.handler == Handler::Startup,
        route.state == (StartupState { registry, group }),
{
    Router {
        path: "/startupz",
        handler: Handler::Startup,
        state: StartupState { registry, group },
    }
}

/// Returns a route handler for detailed health status (`/healthz/detailed`).
///
/// Uses the default [`ReadinessConfig`]; see [`detailed_route_with`].
pub fn detailed_route<R>(registry: R) -> (route: Router<HealthState<R>>)
    ensures
        route.path@ == "/healthz/detailed"@,
        route.handler == Handler::Detailed,
        route.state == (HealthState {
            registry,
            config: ReadinessConfig { degraded_fails_readiness: false },
        }),
{
    detailed_route_with(registry, ReadinessConfig::default())
}

/// Like [`detailed_route`], with explicit [`ReadinessConfig`].
pub fn detailed_route_with<R>(registry: R, config: ReadinessConfig) -> (route: Router<
    HealthState<R>,
>)
    ensures
        route.path@ == "/healthz/detailed"@,
        route.handler == Handler::Detailed,
        route.state == (HealthState { registry, config }),
{
    Router {
        path: "/healthz/detailed",
        handler: Handler::Detailed,
        state: HealthState { registry, config },
    }
}

/// Returns a route handler exposing check results as Prometheus metrics
/// (`/metrics`).
///
/// Every scrape runs all checks and renders the text exposition format; the
/// response is always `200 OK`. See [`metrics_route_with_cache`] to serve
/// cached results instead of running checks on every scrape.
pub fn metrics_route<R>(registry: R) -> (route: Router<MetricsState<R>>)
    ensures
        route.path@ == "/metrics"@,
        route.handler == Handler::Metrics,
        route.state.registry == registry,
        route.state.cache is None,
{
    Router { path: "/metrics", handler: Handler::Metrics, state: MetricsState::new(registry) }
}

/// What the liveness handler answers.
pub open spec fn liveness_reply() -> Reply {
    Reply { status: StatusCode::OK, content: Content::Liveness(HealthStatus::Healthy) }
}

/// What the ping handler answers.
pub open spec fn ping_reply() -> Reply {
    Reply {
        status: StatusCode::OK,
        content: Content::Text { content_type: "text/plain; charset=utf-8"@, text: "OK"@ },
    }
}

/// The HTTP status for a readiness aggregate under `config`.
pub open spec fn readiness_code(status: HealthStatus, config: ReadinessConfig) -> StatusCode {
    match status {
        HealthStatus::Healthy => StatusCode::OK,
        HealthStatus::Degraded => if config.degraded_fails_readiness {
            StatusCode::ServiceUnavailable
        } else {
            StatusCode::OK
        },
        HealthStatus::Unhealthy => StatusCode::ServiceUnavailable,
    }
}

/// What the readiness and detailed handlers answer for some reports.
pub open spec fn readiness_reply(reports: Seq<CheckReport>, config: ReadinessConfig) -> Reply {
    let status = worst(statuses(reports));
    Reply {
        status: readiness_code(status, config),
        content: Content::Readiness(status, reports),
    }
}

/// What the startup handler answers for some reports.
pub open spec fn startup_reply(reports: Seq<CheckReport>) -> Reply {
    let status = worst(statuses(reports));
    Reply {
        status: if status == HealthStatus::Healthy {
            StatusCode::OK
        } else {
            StatusCode::ServiceUnavailable
        },
        content: Content::Health(status),
    }
}

/// Answers a liveness probe.
pub fn liveness_handler() -> (response: Response)
    ensures
        response@ == liveness_reply(),
{
    Response {
        status: StatusCode::OK,
        body: Body::Liveness(LivenessResponse { status: HealthStatus::Healthy }),
    }
}

/// Answers a load balancer.
pub fn ping_handler() -> (response: Response)
    ensures
        response@ == ping_reply(),
{
    Response {
        status: StatusCode::OK,
        body: Body::Text { content_type: "text/plain; charset=utf-8", text: "OK".to_owned() },
    }
}

/// Decide the HTTP status for a readiness aggregate under `config`.
pub fn readiness_status_code(status: HealthStatus, config: ReadinessConfig) -> (code: StatusCode)
    ensures
        code == readiness_code(status, config),
{
    let degraded_ok = status == HealthStatus::Degraded && !config.degraded_fails_readiness;
    if status.is_healthy() || degraded_ok {
        StatusCode::OK
    } else {
        StatusCode::ServiceUnavailable
    }
}

/// What the readiness and detailed handlers answer for a readiness.
pub open spec fn outcome_reply(
    readiness: Result<(HealthStatus, Vec<CheckResult>), HealthCheckError>,
    config: ReadinessConfig,
) -> Reply {
    match readiness {
        Ok((status, checks)) => Reply {
            status: readiness_code(status, config),
            content: Content::Readiness(status, reports(checks@)),
        },
        Err(_) => Reply { status: StatusCode::InternalServerError, content: Content::Empty },
    }
}

/// Answers a readiness probe with what [`HealthRegistry::check_readiness`]
/// returned.
pub fn readiness_handler<R>(
    state: &HealthState<R>,
    readiness: Result<(HealthStatus, Vec<CheckResult>), HealthCheckError>,
) -> (response: Response)
    ensures
        response@ == outcome_reply(readiness, state.config),
{
    match readiness {
        Ok((status, checks)) => Response {
            status: readiness_status_code(status, state.config),
            body: Body::Readiness(ReadinessResponse { status, checks }),
        },
        Err(_) => Response { status: StatusCode::InternalServerError, body: Body::Empty },
    }
}

/// Answers a request for detailed status with what
/// [`HealthRegistry::check_readiness`] returned.
pub fn detailed_handler<R>(
    state: &HealthState<R>,
    readiness: Result<(HealthStatus, Vec<CheckResult>), HealthCheckError>,
) -> (response: Response)
    ensures
        response@ == outcome_reply(readiness, state.config),
{
    readiness_handler(state, readiness)
}

/// The checks that a startup probe runs: those of its group, or all of them.
pub fn startup_checks<'a, R, C>(state: &StartupState<R>, registry: &'a HealthRegistry<C>) -> (selected:
    Vec<&'a RegisteredCheck<C>>)
    ensures
        selected@.map_values(|c: &RegisteredCheck<C>| c@) == swept(
            registry@.checks,
            opt_text(state.group),
        ),
        selected@.len() == swept(registry@.checks, opt_text(state.group)).len(),
{
    match &state.group {
        Some(group) => registry.sweep(Some(group.as_str())),
        None => registry.sweep(None),
    }
}

/// The results of a startup probe whose checks ran as `runs` say.
pub fn startup_results<R, C>(
    state: &StartupState<R>,
    registry: &HealthRegistry<C>,
    runs: &[CheckRun],
) -> (results: Vec<CheckResult>)
    requires
        runs@.len() == swept(registry@.checks, opt_text(state.group)).len(),
    ensures
        reports(results@) == registry@.reports(opt_text(state.group), runs@),
{
    proof {
        crate::registry::lemma_swept_all(registry@.checks);
    }
    match &state.group {
        Some(group) => registry.check_group(group.as_str(), runs),
        None => registry.check_all(runs),
    }
}

/// Answers a startup probe with what [`startup_results`] returned.
pub fn startup_handler(results: &[CheckResult]) -> (response: Response)
    ensures
        response@ == startup_reply(reports(results@)),
        response.body matches Body::Health(body) && {
            &&& response.status == StatusCode::OK <==> body.status == HealthStatus::Healthy
            &&& response.status == StatusCode::OK || response.status
                == StatusCode::ServiceUnavailable
            &&& forall|i: int|
                0 <= i < results@.len() ==> {
                    &&& (#[trigger] results@[i]).status == HealthStatus::Unhealthy ==> body.status
                        == HealthStatus::Unhealthy
                    &&& results@[i].status == HealthStatus::Degraded ==> body.status
                        != HealthStatus::Healthy
                }
            &&& body.status != HealthStatus::Healthy ==> exists|i: int|
                0 <= i < results@.len() && (#[trigger] results@[i]).status == body.status
        },
{
    let status = aggregate_status(results);
    let response = HealthResponse { status };
    if status.is_healthy() {
        Response { status: StatusCode::OK, body: Body::Health(response) }
    } else {
        Response { status: StatusCode::ServiceUnavailable, body: Body::Health(response) }
    }
}

/// Aggregate individual check results into the worst observed status.
pub fn aggregate_status(results: &[CheckResult]) -> (status: HealthStatus)
    ensures
        status == worst(statuses(reports(results@))),
        forall|i: int|
            0 <= i < results@.len() ==> {
                &&& (#[trigger] results@[i]).status == HealthStatus::Unhealthy ==> status
                    == HealthStatus::Unhealthy
                &&& results@[i].status == HealthStatus::Degraded ==> status
                    != HealthStatus::Healthy
            },
        status != HealthStatus::Healthy ==> exists|i: int|
            0 <= i < results@.len() && (#[trigger] results@[i]).status == status,
{
    aggregate(results)
}

/// What [`HealthRegistry::check_readiness`] returns never answers `500`.
pub proof fn law_readiness_is_never_an_internal_error(
    readiness: Result<(HealthStatus, Vec<CheckResult>), HealthCheckError>,
    config: ReadinessConfig,
)
    requires
        readiness matches Ok((status, results)) && status == worst(statuses(reports(results@))),
    ensures
        outcome_reply(readiness, config) == readiness_reply(reports(readiness->Ok_0.1@), config),
        outcome_reply(readiness, config).status.number() == 200 || outcome_reply(
            readiness,
            config,
        ).status.number() == 503,
{
}

/// By default readiness is `200` exactly if no check is unhealthy, and `503`
/// otherwise.
pub proof fn law_default_readiness_tolerates_degraded(reports: Seq<CheckReport>)
    ensures
        ({
            let code = readiness_reply(
                reports,
                ReadinessConfig { degraded_fails_readiness: false },
            ).status.number();
            &&& code == 200 || code == 503
            &&& code == 200 <==> forall|i: int|
                0 <= i < reports.len() ==> (#[trigger] reports[i]).status
                    != HealthStatus::Unhealthy
        }),
{
    let all = statuses(reports);
    crate::types::law_worst_is_the_least_healthy(all);
    if worst(all) == HealthStatus::Unhealthy {
        let k = choose|k: int| 0 <= k < all.len() && all[k] == HealthStatus::Unhealthy;
        assert(reports[k].status == HealthStatus::Unhealthy);
    } else {
        assert forall|i: int| 0 <= i < reports.len() implies (#[trigger] reports[i]).status
            != HealthStatus::Unhealthy by {
            assert(all[i] == reports[i].status);
        }
    }
}

/// Strict readiness is `200` exactly if every check is healthy, and `503`
/// otherwise.
pub proof fn law_strict_readiness_needs_all_healthy(reports: Seq<CheckReport>)
    ensures
        ({
            let code = readiness_reply(
                reports,
                ReadinessConfig { degraded_fails_readiness: true },
            ).status.number();
            &&& code == 200 || code == 503
            &&& code == 200 <==> all_healthy(reports)
        }),
{
    lemma_all_healthy(reports);
}

/// Startup is `200` exactly if every check that it ran is healthy, and `503`
/// otherwise. Where it ran none it is `200`.
pub proof fn law_startup_needs_all_healthy(reports: Seq<CheckReport>)
    ensures
        ({
            let code = startup_reply(reports).status.number();
            &&& code == 200 || code == 503
            &&& code == 200 <==> all_healthy(reports)
        }),
        reports.len() == 0 ==> startup_reply(reports).status == StatusCode::OK,
{
    lemma_all_healthy(reports);
}

/// Whether every report is of a healthy check.
pub open spec fn all_healthy(reports: Seq<CheckReport>) -> bool {
    forall|i: int|
        0 <= i < reports.len() ==> (#[trigger] reports[i]).status == HealthStatus::Healthy
}

proof fn lemma_all_healthy(reports: Seq<CheckReport>)
    ensures
        worst(statuses(reports)) == HealthStatus::Healthy <==> all_healthy(reports),
{
    let all = statuses(reports);
    crate::types::law_worst_is_healthy_if_all_are(all);
    if worst(all) == HealthStatus::Healthy {
        assert forall|i: int| 0 <= i < reports.len() implies (#[trigger] reports[i]).status
            == HealthStatus::Healthy by {
            assert(all[i] == reports[i].status);
        }
    }
}

/// Strict readiness never admits what default readiness refuses; an unhealthy
/// aggregate is refused by both; and the body is the same under both.
pub proof fn law_strictness_only_changes_the_code(
    reports: Seq<CheckReport>,
    lenient: ReadinessConfig,
    strict: ReadinessConfig,
)
    requires
        !lenient.degraded_fails_readiness,
        strict.degraded_fails_readiness,
    ensures
        readiness_reply(reports, strict).status == StatusCode::OK ==> readiness_reply(
            reports,
            lenient,
        ).status == StatusCode::OK,
        worst(statuses(reports)) == HealthStatus::Unhealthy ==> {
            &&& readiness_reply(reports, strict).status == StatusCode::ServiceUnavailable
            &&& readiness_reply(reports, lenient).status == StatusCode::ServiceUnavailable
        },
        readiness_reply(reports, strict).content == readiness_reply(reports, lenient).content,
{
}

/// One check that fails or misses its deadline takes the service out of
/// rotation, whatever the configuration, and its message stands in the body.
pub proof fn law_failing_check_answers_503<C>(
    checks: Seq<CheckEntry<C>>,
    deadline: nat,
    runs: Seq<CheckRun>,
    failing: int,
    config: ReadinessConfig,
)
    requires
        runs.len() == checks.len(),
        0 <= failing < runs.len(),
        !(runs[failing].outcome matches Outcome::Finished(Ok(_))),
    ensures
        ({
            let reports = sweep_reports(checks, deadline, runs);
            &&& readiness_reply(reports, config).status.number() == 503
            &&& readiness_reply(reports, config).content == Content::Readiness(
                HealthStatus::Unhealthy,
                reports,
            )
            &&& reports[failing].status == HealthStatus::Unhealthy
            &&& reports[failing].message == Some(
                match runs[failing].outcome {
                    Outcome::Finished(Err(err)) => err@.text(),
                    _ => "health check timed out after "@ + crate::duration::debug_display(
                        deadline,
                    ),
                },
            )
        }),
{
    crate::registry::law_one_failure_is_enough(checks, deadline, runs, failing);
}

/// The startup probe of a group does not depend on checks outside the group: a
/// check registered without a group, or in another one, changes neither what it
/// runs nor what it answers.
pub proof fn law_startup_ignores_other_checks<C>(
    registry: RegistryState<C>,
    group: Seq<char>,
    other: Option<Seq<char>>,
    name: Seq<char>,
    check_fn: C,
    runs: Seq<CheckRun>,
)
    requires
        other != Some(group),
    ensures
        ({
            let after = registry.with_check(other, name, check_fn);
            &&& swept(after.checks, Some(group)) == swept(registry.checks, Some(group))
            &&& startup_reply(after.reports(Some(group), runs)) == startup_reply(
                registry.reports(Some(group), runs),
            )
        }),
{
    crate::registry::law_registration_extends_its_sweeps(registry, other, name, check_fn, group);
}

/// The startup probe of a group in which nothing was registered answers `200`:
/// nothing ran, so nothing failed.
pub proof fn law_startup_of_unknown_group_is_ok<C>(
    registry: RegistryState<C>,
    group: Seq<char>,
    runs: Seq<CheckRun>,
)
    requires
        forall|i: int| 0 <= i < registry.checks.len() ==> registry.checks[i].group != Some(group),
    ensures
        startup_reply(registry.reports(Some(group), runs)) == (Reply {
            status: StatusCode::OK,
            content: Content::Health(HealthStatus::Healthy),
        }),
{
    crate::registry::law_unknown_group_is_empty(registry, group, runs);
    law_startup_needs_all_healthy(registry.reports(Some(group), runs));
}

/// The body of a startup reply says the status of the least healthy check that
/// ran: `Unhealthy` exactly if one is, `Degraded` exactly if one is and none is
/// `Unhealthy`, and `Healthy` exactly if all are. It says `Healthy` exactly if the
/// code is `200`, and otherwise the code is `503`.
pub proof fn law_startup_body_says_the_worst_status(reports: Seq<CheckReport>)
    ensures
        startup_reply(reports).content matches Content::Health(said) && {
            &&& said == HealthStatus::Unhealthy <==> exists|i: int|
                0 <= i < reports.len() && (#[trigger] reports[i]).status
                    == HealthStatus::Unhealthy
            &&& said == HealthStatus::Degraded <==> {
                &&& exists|i: int|
                    0 <= i < reports.len() && (#[trigger] reports[i]).status
                        == HealthStatus::Degraded
                &&& forall|i: int|
                    0 <= i < reports.len() ==> (#[trigger] reports[i]).status
                        != HealthStatus::Unhealthy
            }
            &&& said == HealthStatus::Healthy <==> forall|i: int|
                0 <= i < reports.len() ==> (#[trigger] reports[i]).status
                    == HealthStatus::Healthy
            &&& startup_reply(reports).status.number() == if said == HealthStatus::Healthy {
                200int
            } else {
                503int
            }
        },
{
    crate::types::law_worst_of_reports(reports);
}

/// The body of a readiness reply holds every report as it is, in order, and says
/// the status of the least healthy one; the code follows from what it says, so
/// that body and code never contradict each other.
pub proof fn law_readiness_body_says_the_worst_status(
    reports: Seq<CheckReport>,
    config: ReadinessConfig,
)
    ensures
        readiness_reply(reports, config).content matches Content::Readiness(said, listed) && {
            &&& listed == reports
            &&& said == HealthStatus::Unhealthy <==> exists|i: int|
                0 <= i < reports.len() && (#[trigger] reports[i]).status
                    == HealthStatus::Unhealthy
            &&& said == HealthStatus::Degraded <==> {
                &&& exists|i: int|
                    0 <= i < reports.len() && (#[trigger] reports[i]).status
                        == HealthStatus::Degraded
                &&& forall|i: int|
                    0 <= i < reports.len() ==> (#[trigger] reports[i]).status
                        != HealthStatus::Unhealthy
            }
            &&& said == HealthStatus::Healthy <==> forall|i: int|
                0 <= i < reports.len() ==> (#[trigger] reports[i]).status
                    == HealthStatus::Healthy
            &&& readiness_reply(reports, config).status.number() == if said
                == HealthStatus::Healthy || (said == HealthStatus::Degraded
                && !config.degraded_fails_readiness) {
                200int
            } else {
                503int
            }
        },
{
    crate::types::law_worst_of_reports(reports);
}

/// What a readiness is answered: its own status and results in the body, with
/// `200` if it is healthy, or degraded where that is tolerated, and `503` if not;
/// and `500` without a body if there is none.
pub proof fn law_readiness_is_answered_as_it_is(
    readiness: Result<(HealthStatus, Vec<CheckResult>), HealthCheckError>,
    config: ReadinessConfig,
)
    ensures
        match readiness {
            Ok((status, checks)) => {
                &&& outcome_reply(readiness, config).content == Content::Readiness(
                    status,
                    reports(checks@),
                )
                &&& outcome_reply(readiness, config).status.number() == if status
                    == HealthStatus::Healthy || (status == HealthStatus::Degraded
                    && !config.degraded_fails_readiness) {
                    200int
                } else {
                    503int
                }
            },
            Err(_) => {
                &&& outcome_reply(readiness, config).content == Content::Empty
                &&& outcome_reply(readiness, config).status.number() == 500
            },
        },
{
}

/// Liveness and ping answer `200` with a constant body.
pub proof fn law_stateless_replies_are_constant()
    ensures
        liveness_reply().status.number() == 200,
        liveness_reply().content == Content::Liveness(HealthStatus::Healthy),
        ping_reply().status.number() == 200,
        ping_reply().content == (Content::Text {
            content_type: "text/plain; charset=utf-8"@,
            text: seq!['O', 'K'],
        }),
{
    reveal_strlit("OK");
    assert("OK"@ =~= seq!['O', 'K']);
}

/// The numbers of the statuses.
pub proof fn law_status_numbers(status: StatusCode)
    ensures
        status.number() == match status {
            StatusCode::OK => 200int,
            StatusCode::ServiceUnavailable => 503int,
            StatusCode::InternalServerError => 500int,
        },
{
}

/// What a response says is what it holds.
pub proof fn law_replies_are_the_responses(response: Response)
    ensures
        response@.status == response.status,
        match response.body {
            Body::Empty => response@.content == Content::Empty,
            Body::Text { content_type, text } => response@.content == (Content::Text {
                content_type: content_type@,
                text: text@,
            }),
            Body::Liveness(body) => response@.content == Content::Liveness(body.status),
            Body::Health(body) => response@.content == Content::Health(body.status),
            Body::Readiness(body) => response@.content == Content::Readiness(
                body.status,
                reports(body.checks@),
            ),
        },
{
}

/// A readiness probe from the runs of the checks to the answer. The code is `503`
/// exactly if some run fails, or where degraded readiness fails if some run is
/// degraded, and `200` otherwise; the body says what the runs amount to and lists
/// the results.
pub proof fn law_readiness_probe_from_runs_to_answer<R, C>(
    state: HealthState<R>,
    registry: HealthRegistry<C>,
    runs: &[CheckRun],
    readiness: Result<(HealthStatus, Vec<CheckResult>), HealthCheckError>,
    response: Response,
)
    requires
        runs@.len() == registry@.checks.len(),
        call_ensures(HealthRegistry::<C>::check_readiness, (&registry, runs), readiness),
        call_ensures(readiness_handler::<R>, (&state, readiness), response) || call_ensures(
            detailed_handler::<R>,
            (&state, readiness),
            response,
        ),
    ensures
        response.body matches Body::Readiness(body) && {
            &&& amounts_to(runs@, body.status)
            &&& body.checks@.len() == runs@.len()
            &&& reports(body.checks@) == registry@.reports(None, runs@)
        },
        (exists|i: int| 0 <= i < runs@.len() && run_fails(#[trigger] runs@[i]))
            ==> response.status.number() == 503,
        (forall|i: int|
            0 <= i < runs@.len() ==> !run_fails(#[trigger] runs@[i]) && !run_is_degraded(runs@[i]))
            ==> response.status.number() == 200,
        (forall|i: int| 0 <= i < runs@.len() ==> !run_fails(#[trigger] runs@[i])) && (exists|i: int|
            0 <= i < runs@.len() && run_is_degraded(#[trigger] runs@[i]))
            ==> response.status.number() == if state.config.degraded_fails_readiness {
            503int
        } else {
            200int
        },
{
    crate::registry::lemma_swept_all(registry@.checks);
    crate::registry::law_sweep_amounts_to_its_runs(
        registry@.checks,
        registry@.default_timeout,
        runs@,
    );
    if let Ok((_, results)) = readiness {
        crate::types::law_reports_are_the_results(results@);
    }
    if let Body::Readiness(body) = response.body {
        crate::types::law_reports_are_the_results(body.checks@);
    }
}

/// A startup probe from the runs of its checks to the answer. The code is `200`
/// exactly if no run fails and none is degraded, and `503` otherwise; the body
/// says what the runs amount to.
pub proof fn law_startup_probe_from_runs_to_answer<R, C>(
    state: StartupState<R>,
    registry: HealthRegistry<C>,
    runs: &[CheckRun],
    results: Vec<CheckResult>,
    slice: &[CheckResult],
    response: Response,
)
    requires
        runs@.len() == swept(registry@.checks, opt_text(state.group)).len(),
        call_ensures(startup_results::<R, C>, (&state, &registry, runs), results),
        slice@ == results@,
        call_ensures(startup_handler, (slice,), response),
    ensures
        response.body matches Body::Health(body) && amounts_to(runs@, body.status),
        response.status.number() == if forall|i: int|
            0 <= i < runs@.len() ==> !run_fails(#[trigger] runs@[i]) && !run_is_degraded(
                runs@[i],
            ) {
            200int
        } else {
            503int
        },
{
    crate::registry::law_sweep_amounts_to_its_runs(
        swept(registry@.checks, opt_text(state.group)),
        registry@.default_timeout,
        runs@,
    );
}

} // verus!
