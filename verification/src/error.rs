//! Why a check did not yield a status.
use vstd::prelude::*;
use vstd::string::StringExecFns;

use crate::duration::{debug_text, Duration};
use crate::types::HealthStatus;

verus! {

/// Errors that can occur during health checks.
#[derive(Debug)]
pub enum HealthCheckError {
    /// A health check failed with a descriptive message.
    CheckFailed(String),
    /// A health check panicked during execution.
    CheckPanicked(String),
    /// A health check timed out.
    CheckTimedOut(Duration),
    /// A required dependency is unavailable.
    DependencyUnavailable(String),
    /// The service is shutting down.
    ShuttingDown,
}

/// What a [`HealthCheckError`] says; a deadline is in nanoseconds.
pub enum Failure {
    CheckFailed(Seq<char>),
    CheckPanicked(Seq<char>),
    CheckTimedOut(nat),
    DependencyUnavailable(Seq<char>),
    ShuttingDown,
}

impl View for HealthCheckError {
    type V = Failure;

    open spec fn view(&self) -> Failure {
        match self {
            HealthCheckError::CheckFailed(detail) => Failure::CheckFailed(detail@),
            HealthCheckError::CheckPanicked(detail) => Failure::CheckPanicked(detail@),
            HealthCheckError::CheckTimedOut(after) => Failure::CheckTimedOut(after@),
            HealthCheckError::DependencyUnavailable(detail) => Failure::DependencyUnavailable(
                detail@,
            ),
            HealthCheckError::ShuttingDown => Failure::ShuttingDown,
        }
    }
}

impl Failure {
    /// The message of the failure.
    pub open spec fn text(self) -> Seq<char> {
        match self {
            Failure::CheckFailed(detail) => "health check failed: "@ + detail,
            Failure::CheckPanicked(detail) => "health check panicked: "@ + detail,
            Failure::CheckTimedOut(nanos) => timed_out_text(
                crate::duration::debug_display(nanos),
            ),
            Failure::DependencyUnavailable(detail) => "dependency unavailable: "@ + detail,
            Failure::ShuttingDown => "service is shutting down"@,
        }
    }
}

/// The message of a check that did not finish within a deadline written `after`.
pub open spec fn timed_out_text(after: Seq<char>) -> Seq<char> {
    "health check timed out after "@ + after
}

/// The message of a check that did not finish within a deadline written `after`.
pub fn timed_out_message(after: &str) -> (s: String)
    ensures
        s@ == timed_out_text(after@),
{
    "health check timed out after ".to_owned().concat(after)
}

/// What a check yielded: a status, or a failure.
pub open spec fn verdict(outcome: Result<HealthStatus, HealthCheckError>) -> Result<
    HealthStatus,
    Failure,
> {
    match outcome {
        Ok(status) => Ok(status),
        Err(err) => Err(err@),
    }
}

impl HealthCheckError {
    /// The message of the error.
    pub fn to_string(&self) -> (s: String)
        ensures
            s@ == self@.text(),
    {
        match self {
            HealthCheckError::CheckFailed(detail) => {
                "health check failed: ".to_owned().concat(detail.as_str())
            },
            HealthCheckError::CheckPanicked(detail) => {
                "health check panicked: ".to_owned().concat(detail.as_str())
            },
            HealthCheckError::CheckTimedOut(after) => {
                timed_out_message(debug_text(after).as_str())
            },
            HealthCheckError::DependencyUnavailable(detail) => {
                "dependency unavailable: ".to_owned().concat(detail.as_str())
            },
            HealthCheckError::ShuttingDown => "service is shutting down".to_owned(),
        }
    }
}

/// Every failure has a message.
pub proof fn law_messages_are_not_empty(failure: Failure)
    ensures
        failure.text().len() > 0,
{
    reveal_strlit("health check failed: ");
    reveal_strlit("health check panicked: ");
    reveal_strlit("health check timed out after ");
    reveal_strlit("dependency unavailable: ");
    reveal_strlit("service is shutting down");
}

/// Failures of one kind are told apart by their details, and only by them.
pub proof fn law_messages_keep_the_detail(a: Seq<char>, b: Seq<char>)
    ensures
        Failure::CheckFailed(a).text() == Failure::CheckFailed(b).text() <==> a == b,
        Failure::CheckPanicked(a).text() == Failure::CheckPanicked(b).text() <==> a == b,
        Failure::DependencyUnavailable(a).text() == Failure::DependencyUnavailable(b).text() <==> a
            == b,
{
    lemma_same_prefix("health check failed: "@, a, b);
    lemma_same_prefix("health check panicked: "@, a, b);
    lemma_same_prefix("dependency unavailable: "@, a, b);
}

proof fn lemma_same_prefix(prefix: Seq<char>, a: Seq<char>, b: Seq<char>)
    ensures
        prefix + a == prefix + b <==> a == b,
{
    assert((prefix + a).skip(prefix.len() as int) =~= a);
    assert((prefix + b).skip(prefix.len() as int) =~= b);
}

/// What an error says is what it holds, and its message is the words for its kind
/// and then its detail.
pub proof fn law_message_of_each_error(err: HealthCheckError)
    ensures
        match err {
            HealthCheckError::CheckFailed(detail) => {
                &&& err@ == Failure::CheckFailed(detail@)
                &&& err@.text() == "health check failed: "@ + detail@
            },
            HealthCheckError::CheckPanicked(detail) => {
                &&& err@ == Failure::CheckPanicked(detail@)
                &&& err@.text() == "health check panicked: "@ + detail@
            },
            HealthCheckError::CheckTimedOut(after) => {
                &&& err@ == Failure::CheckTimedOut(after@)
                &&& err@.text() == "health check timed out after "@
                    + crate::duration::debug_display(after@)
            },
            HealthCheckError::DependencyUnavailable(detail) => {
                &&& err@ == Failure::DependencyUnavailable(detail@)
                &&& err@.text() == "dependency unavailable: "@ + detail@
            },
            HealthCheckError::ShuttingDown => {
                &&& err@ == Failure::ShuttingDown
                &&& err@.text() == "service is shutting down"@
            },
        },
{
}

/// A check yields a status exactly if it returned one; every error, whatever it
/// is, is a failure.
pub proof fn law_errors_are_failures(outcome: Result<HealthStatus, HealthCheckError>)
    ensures
        match outcome {
            Ok(status) => verdict(outcome) == Ok::<HealthStatus, Failure>(status),
            Err(err) => verdict(outcome) == Err::<HealthStatus, Failure>(err@),
        },
{
}

} // verus!
