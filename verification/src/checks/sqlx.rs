//! SQLx database health check.
//!
//! Runs [`PROBE_QUERY`] against a pool with a configurable timeout and a
//! latency warning threshold.
use vstd::prelude::*;
use vstd::string::StringExecFns;

use super::latency_status;
use crate::duration::{Duration, NANOS_PER_MILLI};
use crate::error::{verdict, Failure, HealthCheckError};
use crate::registry::{report, CheckEntry, CheckRun, HealthRegistry};
use crate::types::HealthStatus;

verus! {

/// Query used to verify database responsiveness.
pub const PROBE_QUERY: &'static str = "SELECT 1";

/// What a probe of a database came to.
#[derive(Debug)]
pub enum SqlxProbe {
    /// The query succeeded.
    Succeeded,
    /// The query failed, with this error.
    Failed(String),
    /// The query did not finish within the timeout.
    TimedOut,
}

/// Health check that verifies a database pool is responsive.
///
/// Semantics:
/// - the query succeeds within `timeout` and not above `warn_above` is
///   [`HealthStatus::Healthy`]
/// - the query succeeds but took longer than `warn_above` is
///   [`HealthStatus::Degraded`]
/// - a query error or a timeout is an [`Err`], which the registry folds into
///   [`HealthStatus::Unhealthy`]
pub struct SqlxCheck<P> {
    pub pool: P,
    pub timeout: Duration,
    pub warn_above: Duration,
}

/// What a probe that took `elapsed` nanoseconds amounts to.
pub open spec fn sqlx_verdict(
    probe: SqlxProbe,
    elapsed: nat,
    timeout: nat,
    warn_above: nat,
) -> Result<HealthStatus, Failure> {
    match probe {
        SqlxProbe::Succeeded => Ok(latency_status(elapsed, warn_above)),
        SqlxProbe::Failed(err) => Err(
            Failure::DependencyUnavailable("database probe failed: "@ + err@),
        ),
        SqlxProbe::TimedOut => Err(Failure::CheckTimedOut(timeout)),
    }
}

impl<P> SqlxCheck<P> {
    /// Create a check for the given pool.
    ///
    /// `timeout` bounds each probe; `warn_above_ms` is the latency threshold
    /// above which a successful probe is reported as `Degraded` instead of
    /// `Healthy`.
    pub fn new(pool: P, timeout: Duration, warn_above_ms: u64) -> (check: Self)
        ensures
            check.pool == pool,
            check.timeout == timeout,
            check.warn_above@ == warn_above_ms * NANOS_PER_MILLI,
    {
        SqlxCheck { pool, timeout, warn_above: Duration::from_millis(warn_above_ms) }
    }

    /// Override the probe timeout.
    pub fn with_timeout(self, timeout: Duration) -> (check: Self)
        ensures
            check == (SqlxCheck { pool: self.pool, timeout, warn_above: self.warn_above }),
    {
        SqlxCheck { pool: self.pool, timeout, warn_above: self.warn_above }
    }

    /// Override the latency threshold (in milliseconds) above which a
    /// successful probe is reported as `Degraded`.
    pub fn with_warn_above_ms(self, warn_above_ms: u64) -> (check: Self)
        ensures
            check.pool == self.pool,
            check.timeout == self.timeout,
            check.warn_above@ == warn_above_ms * NANOS_PER_MILLI,
    {
        SqlxCheck {
            pool: self.pool,
            timeout: self.timeout,
            warn_above: Duration::from_millis(warn_above_ms),
        }
    }

    /// Map what a probe came to after `elapsed` to a health status.
    pub fn check(&self, probe: SqlxProbe, elapsed: Duration) -> (outcome: Result<
        HealthStatus,
        HealthCheckError,
    >)
        ensures
            verdict(outcome) == sqlx_verdict(probe, elapsed@, self.timeout@, self.warn_above@),
    {
        match probe {
            SqlxProbe::Succeeded => {
                if elapsed.as_nanos() > self.warn_above.as_nanos() {
                    Ok(HealthStatus::Degraded)
                } else {
                    Ok(HealthStatus::Healthy)
                }
            },
            SqlxProbe::Failed(err) => Err(
                HealthCheckError::DependencyUnavailable(
                    "database probe failed: ".to_owned().concat(err.as_str()),
                ),
            ),
            SqlxProbe::TimedOut => Err(HealthCheckError::CheckTimedOut(self.timeout)),
        }
    }

    /// Register this check with `registry` under `name`; `run` makes of it what
    /// the registry runs.
    pub fn register<C, F: FnOnce(SqlxCheck<P>) -> C>(
        self,
        registry: &mut HealthRegistry<C>,
        name: &str,
        run: F,
    )
        requires
            run.requires((self,)),
        ensures
            exists|check_fn: C| #[trigger]
                run.ensures((self,), check_fn) && final(registry)@ == old(registry)@.with_check(
                    None,
                    name@,
                    check_fn,
                ),
    {
        let check_fn = run(self);
        registry.add_check(name, check_fn);
    }
}

/// A database check is healthy or degraded exactly if the query succeeded; of
/// anything else the registry makes an unhealthy result with a message.
pub proof fn law_sqlx_needs_success<C>(
    check: CheckEntry<C>,
    deadline: nat,
    run: CheckRun,
    probe: SqlxProbe,
    elapsed: nat,
    timeout: nat,
    warn_above: nat,
)
    requires
        run.verdict(deadline) == sqlx_verdict(probe, elapsed, timeout, warn_above),
    ensures
        ({
            let reported = report(check, deadline, run);
            &&& probe is Succeeded ==> reported.status == latency_status(elapsed, warn_above)
            &&& probe is Succeeded <==> reported.status != HealthStatus::Unhealthy
            &&& probe is Succeeded <==> reported.message is None
        }),
{
}

/// What each probe amounts to. A query that succeeded is `Healthy` up to the
/// threshold and `Degraded` above it; one that failed makes the dependency
/// unavailable, and a missed timeout is one, with the timeout of the check.
pub proof fn law_sqlx_verdict_of_each_probe(
    probe: SqlxProbe,
    elapsed: nat,
    timeout: nat,
    warn_above: nat,
)
    ensures
        ({
            let amounts_to = sqlx_verdict(probe, elapsed, timeout, warn_above);
            match probe {
                SqlxProbe::Succeeded => {
                    &&& amounts_to == Ok::<HealthStatus, Failure>(HealthStatus::Healthy) <==> elapsed
                        <= warn_above
                    &&& amounts_to == Ok::<HealthStatus, Failure>(HealthStatus::Degraded) <==> elapsed
                        > warn_above
                },
                SqlxProbe::Failed(err) => amounts_to == Err::<HealthStatus, Failure>(
                    Failure::DependencyUnavailable("database probe failed: "@ + err@),
                ),
                SqlxProbe::TimedOut => amounts_to == Err::<HealthStatus, Failure>(
                    Failure::CheckTimedOut(timeout),
                ),
            }
        }),
{
}

/// The message of a failed probe is fixed text followed by what the database
/// driver said, or by the timeout.
pub proof fn law_sqlx_message_quotes_only_the_probe(
    probe: SqlxProbe,
    elapsed: nat,
    timeout: nat,
    warn_above: nat,
)
    ensures
        sqlx_verdict(probe, elapsed, timeout, warn_above) matches Err(failure) ==> match probe {
            SqlxProbe::Succeeded => false,
            SqlxProbe::Failed(err) => failure.text() == "dependency unavailable: "@ + (
            "database probe failed: "@ + err@),
            SqlxProbe::TimedOut => failure.text() == "health check timed out after "@
                + crate::duration::debug_display(timeout),
        },
{
}

/// What a call of `check` returns for a probe that took `elapsed`, by the check's
/// own threshold and timeout.
pub proof fn law_sqlx_check_of_each_probe<P>(
    check: SqlxCheck<P>,
    probe: SqlxProbe,
    elapsed: Duration,
    outcome: Result<HealthStatus, HealthCheckError>,
)
    requires
        call_ensures(SqlxCheck::<P>::check, (&check, probe, elapsed), outcome),
    ensures
        match probe {
            SqlxProbe::Succeeded => outcome matches Ok(status) && status == if elapsed@
                <= check.warn_above@ {
                HealthStatus::Healthy
            } else {
                HealthStatus::Degraded
            },
            SqlxProbe::Failed(err) => outcome matches Err(
                HealthCheckError::DependencyUnavailable(detail),
            ) && detail@ == "database probe failed: "@ + err@,
            SqlxProbe::TimedOut => outcome matches Err(HealthCheckError::CheckTimedOut(after))
                && after@ == check.timeout@,
        },
{
    law_sqlx_verdict_of_each_probe(probe, elapsed@, check.timeout@, check.warn_above@);
}

} // verus!
