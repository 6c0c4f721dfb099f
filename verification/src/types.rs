//! Statuses, check results and response bodies.
use vstd::prelude::*;

use crate::duration::Duration;

verus! {

/// The status of a health check.
#[derive(Debug, Clone, Copy, PartialEq, Eq, Hash, Structural)]
pub enum HealthStatus {
    /// The component is fully operational.
    Healthy,
    /// The component is operational but degraded.
    Degraded,
    /// The component is not operational.
    Unhealthy,
}

impl HealthStatus {
    /// How bad the status is: the larger, the worse.
    pub open spec fn severity(self) -> int {
        match self {
            HealthStatus::Healthy => 0,
            HealthStatus::Degraded => 1,
            HealthStatus::Unhealthy => 2,
        }
    }

    /// The lower-case name of the status.
    pub open spec fn text(self) -> Seq<char> {
        match self {
            HealthStatus::Healthy => "healthy"@,
            HealthStatus::Degraded => "degraded"@,
            HealthStatus::Unhealthy => "unhealthy"@,
        }
    }

    /// Returns `true` if the status is `Healthy`.
    pub fn is_healthy(self) -> (b: bool)
        ensures
            b == (self == HealthStatus::Healthy),
    {
        matches!(self, HealthStatus::Healthy)
    }

    /// Returns `true` if the component is considered ready (healthy or degraded).
    pub fn is_ready(self) -> (b: bool)
        ensures
            b == (self == HealthStatus::Healthy || self == HealthStatus::Degraded),
    {
        matches!(self, HealthStatus::Healthy | HealthStatus::Degraded)
    }

    /// The lower-case name of the status.
    pub fn to_string(&self) -> (s: String)
        ensures
            s@ == self.text(),
    {
        match self {
            HealthStatus::Healthy => "healthy".to_owned(),
            HealthStatus::Degraded => "degraded".to_owned(),
            HealthStatus::Unhealthy => "unhealthy".to_owned(),
        }
    }
}

/// The view of an optional string.
pub open spec fn opt_text(s: Option<String>) -> Option<Seq<char>> {
    match s {
        Some(text) => Some(text@),
        None => None,
    }
}

/// The result of a single health check.
#[derive(Debug, Clone)]
pub struct CheckResult {
    /// Name of the component that was checked.
    pub name: String,
    /// The health status.
    pub status: HealthStatus,
    /// Optional message providing more detail.
    pub message: Option<String>,
    /// How long the check took.
    pub duration: Duration,
}

/// What a [`CheckResult`] reports.
pub struct CheckReport {
    pub name: Seq<char>,
    pub status: HealthStatus,
    pub message: Option<Seq<char>>,
    pub duration: nat,
}

impl View for CheckResult {
    type V = CheckReport;

    open spec fn view(&self) -> CheckReport {
        CheckReport {
            name: self.name@,
            status: self.status,
            message: opt_text(self.message),
            duration: self.duration@,
        }
    }
}

/// What a sequence of results reports, in order.
pub open spec fn reports(results: Seq<CheckResult>) -> Seq<CheckReport> {
    results.map_values(|r: CheckResult| r@)
}

/// The statuses that reports carry, in order.
pub open spec fn statuses(reports: Seq<CheckReport>) -> Seq<HealthStatus> {
    reports.map_values(|r: CheckReport| r.status)
}

/// The worst of some statuses; `Healthy` if there is none.
pub open spec fn worst(statuses: Seq<HealthStatus>) -> HealthStatus {
    if statuses.contains(HealthStatus::Unhealthy) {
        HealthStatus::Unhealthy
    } else if statuses.contains(HealthStatus::Degraded) {
        HealthStatus::Degraded
    } else {
        HealthStatus::Healthy
    }
}

/// Response body for startup probes.
#[derive(Debug, Clone)]
pub struct HealthResponse {
    pub status: HealthStatus,
}

/// Response body for readiness probes.
#[derive(Debug, Clone)]
pub struct ReadinessResponse {
    pub status: HealthStatus,
    pub checks: Vec<CheckResult>,
}

/// Response body for liveness probes.
#[derive(Debug, Clone)]
pub struct LivenessResponse {
    pub status: HealthStatus,
}

/// Statuses are told apart by their names, and no name is empty.
pub proof fn law_status_names_are_distinct(a: HealthStatus, b: HealthStatus)
    ensures
        a.text() == b.text() <==> a == b,
        a.text().len() > 0,
{
    reveal_strlit("healthy");
    reveal_strlit("degraded");
    reveal_strlit("unhealthy");
    assert("healthy"@[0] == 'h');
    assert("degraded"@[0] == 'd');
    assert("unhealthy"@[0] == 'u');
}

/// The worst status is never healthier than any of the statuses, and is one of
/// them unless there are none; then it is `Healthy`.
pub proof fn law_worst_is_the_least_healthy(statuses: Seq<HealthStatus>)
    ensures
        forall|i: int|
            0 <= i < statuses.len() ==> worst(statuses).severity()
                >= (#[trigger] statuses[i]).severity(),
        statuses.len() > 0 ==> statuses.contains(worst(statuses)),
        statuses.len() == 0 ==> worst(statuses) == HealthStatus::Healthy,
{
    assert forall|i: int| 0 <= i < statuses.len() implies worst(statuses).severity() >= (
    #[trigger] statuses[i]).severity() by {
        assert(statuses.contains(statuses[i]));
    }
    if statuses.len() > 0 {
        assert(statuses.contains(statuses[0]));
    }
}

/// The worst status is `Healthy` exactly if every status is.
pub proof fn law_worst_is_healthy_if_all_are(statuses: Seq<HealthStatus>)
    ensures
        worst(statuses) == HealthStatus::Healthy <==> (forall|i: int|
            0 <= i < statuses.len() ==> statuses[i] == HealthStatus::Healthy),
{
    law_worst_is_the_least_healthy(statuses);
}

/// The worst status of two sweeps together is the worse of their worst.
pub proof fn law_worst_of_two_parts(a: Seq<HealthStatus>, b: Seq<HealthStatus>)
    ensures
        worst(a + b) == if worst(a).severity() >= worst(b).severity() {
            worst(a)
        } else {
            worst(b)
        },
{
    assert forall|x: HealthStatus| (a + b).contains(x) <==> (a.contains(x) || b.contains(x)) by {
        if a.contains(x) {
            let k = choose|k: int| 0 <= k < a.len() && a[k] == x;
            assert((a + b)[k] == x);
        }
        if b.contains(x) {
            let k = choose|k: int| 0 <= k < b.len() && b[k] == x;
            assert((a + b)[a.len() + k] == x);
        }
    }
}

/// The order of the statuses does not matter for the worst of them.
pub proof fn law_worst_ignores_order(a: Seq<HealthStatus>, b: Seq<HealthStatus>)
    requires
        a.to_multiset() == b.to_multiset(),
    ensures
        worst(a) == worst(b),
{
    broadcast use vstd::seq_lib::group_to_multiset_ensures;

    assert forall|x: HealthStatus| a.contains(x) <==> b.contains(x) by {
        assert(a.contains(x) <==> a.to_multiset().count(x) > 0);
        assert(b.contains(x) <==> b.to_multiset().count(x) > 0);
    }
}

/// The name of a status is its variant in lower case, letter for letter.
pub proof fn law_status_names_are_lower_case(status: HealthStatus)
    ensures
        status.text() == match status {
            HealthStatus::Healthy => seq!['h', 'e', 'a', 'l', 't', 'h', 'y'],
            HealthStatus::Degraded => seq!['d', 'e', 'g', 'r', 'a', 'd', 'e', 'd'],
            HealthStatus::Unhealthy => seq!['u', 'n', 'h', 'e', 'a', 'l', 't', 'h', 'y'],
        },
{
    reveal_strlit("healthy");
    reveal_strlit("degraded");
    reveal_strlit("unhealthy");
}

/// What results report is what they hold, one for one and in order.
pub proof fn law_reports_are_the_results(results: Seq<CheckResult>)
    ensures
        reports(results).len() == results.len(),
        statuses(reports(results)).len() == results.len(),
        forall|i: int|
            0 <= i < results.len() ==> {
                let reported = #[trigger] reports(results)[i];
                &&& reported.name == results[i].name@
                &&& reported.status == results[i].status
                &&& reported.duration == results[i].duration@
                &&& match results[i].message {
                    Some(message) => reported.message == Some(message@),
                    None => reported.message is None,
                }
            },
        forall|i: int|
            0 <= i < results.len() ==> #[trigger] statuses(reports(results))[i]
                == results[i].status,
{
}

/// The worst status of some reports is `Unhealthy` exactly if one of them is,
/// `Degraded` exactly if one is and none is `Unhealthy`, and `Healthy` exactly if
/// all are, as it is if there are none.
pub proof fn law_worst_of_reports(reports: Seq<CheckReport>)
    ensures
        worst(statuses(reports)) == HealthStatus::Unhealthy <==> exists|i: int|
            0 <= i < reports.len() && (#[trigger] reports[i]).status == HealthStatus::Unhealthy,
        worst(statuses(reports)) == HealthStatus::Degraded <==> {
            &&& exists|i: int|
                0 <= i < reports.len() && (#[trigger] reports[i]).status == HealthStatus::Degraded
            &&& forall|i: int|
                0 <= i < reports.len() ==> (#[trigger] reports[i]).status
                    != HealthStatus::Unhealthy
        },
        worst(statuses(reports)) == HealthStatus::Healthy <==> forall|i: int|
            0 <= i < reports.len() ==> (#[trigger] reports[i]).status == HealthStatus::Healthy,
{
    let all = statuses(reports);
    assert forall|i: int| 0 <= i < reports.len() implies all.contains(
        (#[trigger] reports[i]).status,
    ) by {
        assert(all[i] == reports[i].status);
    }
    assert forall|x: HealthStatus| #[trigger] all.contains(x) implies exists|i: int|
        0 <= i < reports.len() && (#[trigger] reports[i]).status == x by {
        let k = choose|k: int| 0 <= k < all.len() && all[k] == x;
        assert(reports[k].status == x);
    }
}

/// The view of an optional string is that of the string, if there is one.
pub proof fn law_optional_text(s: Option<String>)
    ensures
        match s {
            Some(text) => opt_text(s) == Some(text@),
            None => opt_text(s) is None,
        },
{
}

} // verus!
