//! The registry of checks, and what a sweep over it reports.
use vstd::prelude::*;

use crate::duration::Duration;
use crate::error::{verdict, Failure, HealthCheckError};
use crate::types::{reports, statuses, worst, CheckReport, CheckResult, HealthStatus};

verus! {

/// The per-check timeout of a new registry, in seconds.
pub const DEFAULT_TIMEOUT_SECS: u64 = 5;

/// A registered health check with its name and optional group.
///
/// `check_fn` is what the caller runs to execute the check.
pub struct RegisteredCheck<C> {
    pub name: String,
    /// Group the check belongs to, if any. A check without a group runs in
    /// every registry-wide sweep; a check in a group also runs when that group
    /// is swept on its own.
    pub group: Option<String>,
    pub check_fn: C,
}

/// What is registered under one name.
pub struct CheckEntry<C> {
    pub name: Seq<char>,
    pub group: Option<Seq<char>>,
    pub check_fn: C,
}

impl<C> View for RegisteredCheck<C> {
    type V = CheckEntry<C>;

    open spec fn view(&self) -> CheckEntry<C> {
        CheckEntry {
            name: self.name@,
            group: crate::types::opt_text(self.group),
            check_fn: self.check_fn,
        }
    }
}

impl<C: Clone> CheckEntry<C> {
    /// Whether `copy` is registered alike, with a clone of what runs the check.
    pub open spec fn copied_to(self, copy: Self) -> bool {
        &&& copy.name == self.name
        &&& copy.group == self.group
        &&& cloned(self.check_fn, copy.check_fn)
    }
}

impl<C: Clone> Clone for RegisteredCheck<C> {
    fn clone(&self) -> (copy: Self)
        ensures
            self@.copied_to(copy@),
    {
        RegisteredCheck {
            name: self.name.clone(),
            group: match &self.group {
                Some(group) => Some(group.clone()),
                None => None,
            },
            check_fn: self.check_fn.clone(),
        }
    }
}

/// The checks that a sweep runs, in registration order: all of them for
/// `None`, those of one group for `Some`.
pub open spec fn swept<C>(checks: Seq<CheckEntry<C>>, group: Option<Seq<char>>) -> Seq<
    CheckEntry<C>,
> {
    checks.filter(|c: CheckEntry<C>| in_sweep(c, group))
}

/// Whether a sweep runs a check.
pub open spec fn in_sweep<C>(check: CheckEntry<C>, group: Option<Seq<char>>) -> bool {
    group is None || check.group == group
}

/// How the execution of a check ended.
#[derive(Debug)]
pub enum Outcome {
    /// The check finished, with a status or an error.
    Finished(Result<HealthStatus, HealthCheckError>),
    /// The deadline passed before the check finished.
    DeadlineElapsed,
}

/// One execution of a check.
#[derive(Debug)]
pub struct CheckRun {
    pub outcome: Outcome,
    /// Time from the start of the check to its outcome.
    pub elapsed: Duration,
}

impl CheckRun {
    /// What a run that was bounded by `deadline` nanoseconds yielded; missing
    /// the deadline is a failure.
    pub open spec fn verdict(self, deadline: nat) -> Result<HealthStatus, Failure> {
        match self.outcome {
            Outcome::Finished(outcome) => verdict(outcome),
            Outcome::DeadlineElapsed => Err(Failure::CheckTimedOut(deadline)),
        }
    }
}

/// What is reported of a check that was bounded by `deadline` nanoseconds: the
/// status that it yielded, or `Unhealthy` with the message of its failure.
pub open spec fn report<C>(check: CheckEntry<C>, deadline: nat, run: CheckRun) -> CheckReport {
    CheckReport {
        name: check.name,
        status: match run.verdict(deadline) {
            Ok(status) => status,
            Err(_) => HealthStatus::Unhealthy,
        },
        message: match run.verdict(deadline) {
            Ok(_) => None,
            Err(failure) => Some(failure.text()),
        },
        duration: run.elapsed@,
    }
}

/// What is reported of a sweep: one report for each check, in order, made from
/// that check and its run alone.
pub open spec fn sweep_reports<C>(
    checks: Seq<CheckEntry<C>>,
    deadline: nat,
    runs: Seq<CheckRun>,
) -> Seq<CheckReport> {
    Seq::new(checks.len(), |i: int| report(checks[i], deadline, runs[i]))
}

/// Fold one execution of a check into its result, including a missed deadline.
pub fn run_one<C>(check: &RegisteredCheck<C>, deadline: Duration, run: &CheckRun) -> (result:
    CheckResult)
    ensures
        result@ == report(check@, deadline@, *run),
        result.name@ == check.name@,
        result.duration == run.elapsed,
        match run.outcome {
            Outcome::Finished(Ok(status)) => result.status == status && result.message is None,
            Outcome::Finished(Err(err)) => {
                &&& result.status == HealthStatus::Unhealthy
                &&& result.message matches Some(message) && message@ == err@.text()
            },
            Outcome::DeadlineElapsed => {
                &&& result.status == HealthStatus::Unhealthy
                &&& result.message matches Some(message) && message@
                    == "health check timed out after "@ + crate::duration::debug_display(deadline@)
            },
        },
{
    let (status, message) = match &run.outcome {
        Outcome::Finished(Ok(status)) => (*status, None),
        Outcome::Finished(Err(err)) => (HealthStatus::Unhealthy, Some(err.to_string())),
        Outcome::DeadlineElapsed => {
            let err = HealthCheckError::CheckTimedOut(deadline);
            (HealthStatus::Unhealthy, Some(err.to_string()))
        },
    };
    CheckResult { name: check.name.clone(), status, message, duration: run.elapsed }
}

/// Aggregate individual check results into the worst observed status.
pub fn aggregate(results: &[CheckResult]) -> (status: HealthStatus)
    ensures
        status == worst(statuses(reports(results@))),
        forall|i: int|
            0 <= i < results@.len() ==> {
                &&& (#[trigger] results@[i]).status == HealthStatus::Unhealthy ==> status
                    == HealthStatus::Unhealthy
                &&& results@[i].status == HealthStatus::Degraded ==> status
                    != HealthStatus::Healthy
            },
        status != HealthStatus::Healthy ==> exists|i: int|
            0 <= i < results@.len() && (#[trigger] results@[i]).status == status,
{
    let ghost all = statuses(reports(results@));
    let mut status = HealthStatus::Healthy;
    let mut i: usize = 0;
    while i < results.len()
        invariant
            i <= results.len(),
            all == statuses(reports(results@)),
            status == worst(all.take(i as int)),
        decreases results.len() - i,
    {
        let ghost seen = all.take(i as int);
        proof {
            assert(all.take(i + 1) =~= seen.push(results@[i as int].status));
            lemma_worst_push(seen, results@[i as int].status);
        }
        match results[i].status {
            HealthStatus::Unhealthy => {
                status = HealthStatus::Unhealthy;
            },
            HealthStatus::Degraded => {
                if status == HealthStatus::Healthy {
                    status = HealthStatus::Degraded;
                }
            },
            HealthStatus::Healthy => {},
        }
        i += 1;
    }
    assert(all.take(results@.len() as int) =~= all);
    proof {
        assert forall|i: int| 0 <= i < results@.len() implies all.contains(
            (#[trigger] results@[i]).status,
        ) by {
            assert(all[i] == results@[i].status);
        }
        if status != HealthStatus::Healthy {
            let k = choose|k: int| 0 <= k < all.len() && all[k] == status;
            assert(results@[k].status == status);
        }
    }
    status
}

/// The worst of some statuses and one more.
proof fn lemma_worst_push(s: Seq<HealthStatus>, last: HealthStatus)
    ensures
        worst(s.push(last)) == if worst(s).severity() >= last.severity() {
            worst(s)
        } else {
            last
        },
{
    assert forall|x: HealthStatus| s.push(last).contains(x) <==> (s.contains(x) || x == last) by {
        if s.contains(x) {
            let k = choose|k: int| 0 <= k < s.len() && s[k] == x;
            assert(s.push(last)[k] == x);
        }
        if x == last {
            assert(s.push(last)[s.len() as int] == x);
        }
    }
}

/// Registry of health checks that can be executed on demand.
///
/// A sweep over the registry takes three steps. [`HealthRegistry::sweep`] says
/// which checks to run and [`HealthRegistry::deadline`] how long each may take.
/// The caller runs them, concurrently. [`HealthRegistry::check_all`],
/// [`HealthRegistry::check_group`], [`HealthRegistry::check_liveness`] and
/// [`HealthRegistry::check_readiness`] turn the runs into results.
///
/// Its users share one registry, each through a [`RegistryHandle`] of its own.
pub struct HealthRegistry<C> {
    checks: Vec<RegisteredCheck<C>>,
    default_timeout: Duration,
}

/// The state of a registry: its checks in registration order, and the timeout
/// of each check in nanoseconds.
pub struct RegistryState<C> {
    pub checks: Seq<CheckEntry<C>>,
    pub default_timeout: nat,
}

impl<C> View for HealthRegistry<C> {
    type V = RegistryState<C>;

    closed spec fn view(&self) -> RegistryState<C> {
        RegistryState {
            checks: self.checks@.map_values(|c: RegisteredCheck<C>| c@),
            default_timeout: self.default_timeout@,
        }
    }
}

impl<C> RegistryState<C> {
    /// What a sweep over the registry reports.
    pub open spec fn reports(self, group: Option<Seq<char>>, runs: Seq<CheckRun>) -> Seq<
        CheckReport,
    > {
        sweep_reports(swept(self.checks, group), self.default_timeout, runs)
    }

    /// The registry as it is seen through a handle with a timeout of its own.
    pub open spec fn seen_by(self, timeout: nat) -> Self {
        RegistryState { checks: self.checks, default_timeout: timeout }
    }

    /// The registry with one more check at the end.
    pub open spec fn with_check(self, group: Option<Seq<char>>, name: Seq<char>, check_fn: C) -> Self {
        RegistryState {
            checks: self.checks.push(CheckEntry { name, group, check_fn }),
            default_timeout: self.default_timeout,
        }
    }
}

impl<C: Clone> RegistryState<C> {
    /// Whether `copy` has the same timeout and the same checks, registered alike
    /// and in the same order.
    pub open spec fn copied_to(self, copy: Self) -> bool {
        &&& copy.default_timeout == self.default_timeout
        &&& copy.checks.len() == self.checks.len()
        &&& forall|i: int|
            0 <= i < self.checks.len() ==> (#[trigger] self.checks[i]).copied_to(copy.checks[i])
    }
}

impl<C: Clone> HealthRegistry<C> {
    /// The registry as it is now, to run a sweep on while others register.
    pub fn snapshot(&self) -> (copy: Self)
        ensures
            self@.copied_to(copy@),
    {
        let mut checks: Vec<RegisteredCheck<C>> = Vec::new();
        let mut i: usize = 0;
        while i < self.checks.len()
            invariant
                i <= self.checks.len(),
                checks.len() == i,
                forall|k: int|
                    0 <= k < i ==> (#[trigger] self.checks@[k])@.copied_to(checks@[k]@),
            decreases self.checks.len() - i,
        {
            checks.push(self.checks[i].clone());
            i += 1;
        }
        let copy = HealthRegistry { checks, default_timeout: self.default_timeout };
        assert forall|k: int| 0 <= k < self@.checks.len() implies (
        #[trigger] self@.checks[k]).copied_to(copy@.checks[k]) by {
            assert(self.checks@[k]@.copied_to(checks@[k]@));
        }
        copy
    }
}

/// What one user of a shared registry holds. The clones of a handle share the
/// checks, whichever of them registered a check and when; each has its own
/// per-check timeout.
#[derive(Clone, Copy, Debug)]
pub struct RegistryHandle {
    pub default_timeout: Duration,
}

impl RegistryHandle {
    /// Set the per-check timeout of this handle, and of no other.
    #[must_use]
    pub fn with_default_timeout(self, timeout: Duration) -> (handle: Self)
        ensures
            handle == (RegistryHandle { default_timeout: timeout }),
    {
        RegistryHandle { default_timeout: timeout }
    }

    /// The registry to run a sweep of this handle on: the checks that are shared
    /// now, under the handle's timeout.
    pub fn snapshot<C: Clone>(&self, shared: &HealthRegistry<C>) -> (registry: HealthRegistry<C>)
        ensures
            shared@.seen_by(self.default_timeout@).copied_to(registry@),
    {
        shared.snapshot().with_default_timeout(self.default_timeout)
    }
}

impl<C> HealthRegistry<C> {
    /// Create a new empty health registry.
    pub fn new() -> (r: Self)
        ensures
            r@.checks == Seq::<CheckEntry<C>>::empty(),
            r@.default_timeout == DEFAULT_TIMEOUT_SECS * crate::duration::NANOS_PER_SEC,
            r@.default_timeout == 5_000_000_000,
    {
        let r = HealthRegistry {
            checks: Vec::new(),
            default_timeout: Duration::from_secs(DEFAULT_TIMEOUT_SECS),
        };
        assert(r@.checks =~= Seq::<CheckEntry<C>>::empty());
        r
    }

    /// Set the per-check timeout applied to every registered check.
    ///
    /// The default is 5 seconds. A check that does not finish within the
    /// deadline reports `Unhealthy` with a message that names the deadline. A
    /// timeout of zero disables the deadline.
    #[must_use]
    pub fn with_default_timeout(self, timeout: Duration) -> (r: Self)
        ensures
            r@ == (RegistryState { checks: self@.checks, default_timeout: timeout@ }),
    {
        HealthRegistry { checks: self.checks, default_timeout: timeout }
    }

    /// The per-check timeout currently configured for this registry.
    pub fn default_timeout(&self) -> (timeout: Duration)
        ensures
            timeout@ == self@.default_timeout,
    {
        self.default_timeout
    }

    /// A handle to share this registry through, with its timeout.
    pub fn handle(&self) -> (handle: RegistryHandle)
        ensures
            handle.default_timeout@ == self@.default_timeout,
    {
        RegistryHandle { default_timeout: self.default_timeout }
    }

    /// The deadline of each check: the per-check timeout, or none if that is
    /// zero.
    pub fn deadline(&self) -> (deadline: Option<Duration>)
        ensures
            match deadline {
                Some(d) => d@ == self@.default_timeout && d@ != 0,
                None => self@.default_timeout == 0,
            },
    {
        if self.default_timeout.is_zero() {
            None
        } else {
            Some(self.default_timeout)
        }
    }

    /// Register a health check with a given name.
    ///
    /// The check runs on every registry-wide sweep.
    pub fn add_check(&mut self, name: &str, check: C)
        ensures
            final(self)@ == old(self)@.with_check(None, name@, check),
    {
        self.add_check_inner(None, name, check);
    }

    /// Register a health check that belongs to a named group.
    ///
    /// Grouped checks run on every registry-wide sweep *and* when their group
    /// is swept. Group names are arbitrary strings; the same check name may
    /// appear in different groups, and a check never joins more than one group.
    pub fn add_check_to_group(&mut self, group: &str, name: &str, check: C)
        ensures
            final(self)@ == old(self)@.with_check(Some(group@), name@, check),
    {
        self.add_check_inner(Some(group.to_owned()), name, check);
    }

    /// Register a health check, in a group or in none, after all earlier ones.
    /// A name that is already registered is neither rejected nor replaced.
    pub fn add_check_inner(&mut self, group: Option<String>, name: &str, check: C)
        ensures
            final(self)@ == old(self)@.with_check(crate::types::opt_text(group), name@, check),
    {
        self.checks.push(RegisteredCheck { name: name.to_owned(), group, check_fn: check });
        assert(self@.checks =~= old(self)@.with_check(
            crate::types::opt_text(group),
            name@,
            check,
        ).checks);
    }

    /// The checks to run, in registration order: all of them, or those of
    /// `group`. An unknown group has none.
    pub fn sweep(&self, group: Option<&str>) -> (selected: Vec<&RegisteredCheck<C>>)
        ensures
            selected@.map_values(|c: &RegisteredCheck<C>| c@) == swept(
                self@.checks,
                opt_str(group),
            ),
            selected@.len() == swept(self@.checks, opt_str(group)).len(),
            group is None ==> swept(self@.checks, opt_str(group)) == self@.checks,
    {
        proof {
            lemma_swept_all(self@.checks);
        }
        let wanted: Option<String> = match group {
            Some(g) => Some(g.to_owned()),
            None => None,
        };
        let ghost checks = self@.checks;
        let ghost pred = |c: CheckEntry<C>| in_sweep(c, opt_str(group));
        let mut selected: Vec<&RegisteredCheck<C>> = Vec::new();
        let mut i: usize = 0;
        proof {
            reveal(Seq::filter);
            assert(selected@.map_values(|c: &RegisteredCheck<C>| c@) =~= checks.take(0).filter(
                pred,
            ));
        }
        while i < self.checks.len()
            invariant
                i <= self.checks.len(),
                checks == self@.checks,
                checks.len() == self.checks.len(),
                crate::types::opt_text(wanted) == opt_str(group),
                pred == (|c: CheckEntry<C>| in_sweep(c, opt_str(group))),
                selected@.map_values(|c: &RegisteredCheck<C>| c@) == checks.take(i as int).filter(
                    pred,
                ),
            decreases self.checks.len() - i,
        {
            let check = &self.checks[i];
            let runs = match &wanted {
                None => true,
                Some(w) => match &check.group {
                    Some(g) => *g == *w,
                    None => false,
                },
            };
            let ghost before = selected@;
            if runs {
                selected.push(check);
            }
            proof {
                reveal(Seq::filter);
                assert(checks.take(i + 1).drop_last() =~= checks.take(i as int));
                assert(checks.take(i + 1).last() == check@);
                assert(runs == pred(check@));
                if runs {
                    assert(selected@.map_values(|c: &RegisteredCheck<C>| c@) =~= before.map_values(
                        |c: &RegisteredCheck<C>| c@,
                    ).push(check@));
                }
            }
            i += 1;
        }
        assert(checks.take(checks.len() as int) =~= checks);
        selected
    }

    /// The results of a sweep whose checks ran as `runs` say.
    fn complete(&self, group: Option<&str>, runs: &[CheckRun]) -> (results: Vec<CheckResult>)
        requires
            runs@.len() == swept(self@.checks, opt_str(group)).len(),
        ensures
            reports(results@) == self@.reports(opt_str(group), runs@),
    {
        let selected = self.sweep(group);
        let ghost checks = swept(self@.checks, opt_str(group));
        let mut results: Vec<CheckResult> = Vec::new();
        let mut i: usize = 0;
        while i < selected.len()
            invariant
                i <= selected.len(),
                selected.len() == runs@.len(),
                selected@.map_values(|c: &RegisteredCheck<C>| c@) == checks,
                results@.len() == i,
                forall|k: int|
                    0 <= k < i ==> (#[trigger] results@[k])@ == report(
                        checks[k],
                        self@.default_timeout,
                        runs@[k],
                    ),
            decreases selected.len() - i,
        {
            assert(selected@.map_values(|c: &RegisteredCheck<C>| c@)[i as int]
                == selected@[i as int]@);
            results.push(run_one(selected[i], self.default_timeout, &runs[i]));
            i += 1;
        }
        assert(reports(results@) =~= self@.reports(opt_str(group), runs@));
        results
    }

    /// The results of running all registered checks.
    ///
    /// There is one result for each registered check, in registration order. A
    /// failing check's error is preserved as the result's `message`; a check
    /// that exceeded its deadline reports `Unhealthy`.
    pub fn check_all(&self, runs: &[CheckRun]) -> (results: Vec<CheckResult>)
        requires
            runs@.len() == self@.checks.len(),
        ensures
            reports(results@) == sweep_reports(self@.checks, self@.default_timeout, runs@),
    {
        proof {
            lemma_swept_all(self@.checks);
        }
        self.complete(None, runs)
    }

    /// The results of running only the checks registered in `group`.
    ///
    /// Checks that were not added to the group have no result. An unknown group
    /// yields an empty `Vec`.
    pub fn check_group(&self, group: &str, runs: &[CheckRun]) -> (results: Vec<CheckResult>)
        requires
            runs@.len() == swept(self@.checks, Some(group@)).len(),
        ensures
            reports(results@) == self@.reports(Some(group@), runs@),
    {
        self.complete(Some(group), runs)
    }

    /// Check liveness: the worst status of all checks, `Healthy` if there are
    /// none.
    pub fn check_liveness(&self, runs: &[CheckRun]) -> (status: Result<
        HealthStatus,
        HealthCheckError,
    >)
        requires
            runs@.len() == self@.checks.len(),
        ensures
            status == Ok::<HealthStatus, HealthCheckError>(
                worst(statuses(sweep_reports(self@.checks, self@.default_timeout, runs@))),
            ),
    {
        let results = self.check_all(runs);
        Ok(aggregate(results.as_slice()))
    }

    /// Check readiness: the worst status of all checks, with the result of
    /// each.
    pub fn check_readiness(&self, runs: &[CheckRun]) -> (readiness: Result<
        (HealthStatus, Vec<CheckResult>),
        HealthCheckError,
    >)
        requires
            runs@.len() == self@.checks.len(),
        ensures
            readiness matches Ok((status, results)) && {
                &&& reports(results@) == sweep_reports(self@.checks, self@.default_timeout, runs@)
                &&& status == worst(statuses(reports(results@)))
            },
    {
        let results = self.check_all(runs);
        let overall = aggregate(results.as_slice());
        Ok((overall, results))
    }
}

/// The counter of check outcomes, labeled by check name and status.
pub const RESULT_COUNTER: &'static str = "healthkit_check_result";

/// The histogram of check durations in seconds, labeled by check name.
pub const DURATION_HISTOGRAM: &'static str = "healthkit_check_duration_seconds";

/// One observation for a metrics recorder.
#[derive(Debug)]
pub enum Emission {
    /// Increment a counter.
    Increment { metric: &'static str, labels: Vec<(&'static str, String)>, by: u64 },
    /// Record a value, in seconds, in a histogram.
    Record { metric: &'static str, labels: Vec<(&'static str, String)>, value: Duration },
}

/// What an [`Emission`] tells the recorder; a value is in nanoseconds.
pub enum Observation {
    Increment { metric: Seq<char>, labels: Seq<(Seq<char>, Seq<char>)>, by: nat },
    Record { metric: Seq<char>, labels: Seq<(Seq<char>, Seq<char>)>, value: nat },
}

/// The view of a list of labels.
pub open spec fn label_pairs(labels: Seq<(&'static str, String)>) -> Seq<(Seq<char>, Seq<char>)> {
    labels.map_values(|l: (&'static str, String)| (l.0@, l.1@))
}

impl View for Emission {
    type V = Observation;

    open spec fn view(&self) -> Observation {
        match self {
            Emission::Increment { metric, labels, by } => Observation::Increment {
                metric: metric@,
                labels: label_pairs(labels@),
                by: *by as nat,
            },
            Emission::Record { metric, labels, value } => Observation::Record {
                metric: metric@,
                labels: label_pairs(labels@),
                value: value@,
            },
        }
    }
}

/// The increment that one executed check adds to the outcome counter.
pub open spec fn outcome_observation(report: CheckReport) -> Observation {
    Observation::Increment {
        metric: RESULT_COUNTER@,
        labels: seq![("name"@, report.name), ("status"@, report.status.text())],
        by: 1,
    }
}

/// The observation that one executed check adds to the duration histogram.
pub open spec fn duration_observation(report: CheckReport) -> Observation {
    Observation::Record {
        metric: DURATION_HISTOGRAM@,
        labels: seq![("name"@, report.name)],
        value: report.duration,
    }
}

/// What one check outcome emits: an increment of [`RESULT_COUNTER`] labeled by
/// check name and status, and an observation of [`DURATION_HISTOGRAM`] labeled
/// by check name.
pub fn emit_facade_metrics(result: &CheckResult) -> (emissions: (Emission, Emission))
    ensures
        emissions.0@ == outcome_observation(result@),
        emissions.1@ == duration_observation(result@),
        emissions.0 matches Emission::Increment { metric, labels, by } && {
            &&& metric@ == "healthkit_check_result"@
            &&& by == 1
            &&& labels@.len() == 2
            &&& labels@[0].0@ == "name"@
            &&& labels@[0].1@ == result.name@
            &&& labels@[1].0@ == "status"@
            &&& labels@[1].1@ == result.status.text()
        },
        emissions.1 matches Emission::Record { metric, labels, value } && {
            &&& metric@ == "healthkit_check_duration_seconds"@
            &&& value == result.duration
            &&& labels@.len() == 1
            &&& labels@[0].0@ == "name"@
            &&& labels@[0].1@ == result.name@
        },
{
    let mut outcome_labels: Vec<(&'static str, String)> = Vec::new();
    outcome_labels.push(("name", result.name.clone()));
    outcome_labels.push(("status", result.status.to_string()));
    let mut duration_labels: Vec<(&'static str, String)> = Vec::new();
    duration_labels.push(("name", result.name.clone()));
    let outcome = Emission::Increment { metric: RESULT_COUNTER, labels: outcome_labels, by: 1 };
    let duration = Emission::Record {
        metric: DURATION_HISTOGRAM,
        labels: duration_labels,
        value: result.duration,
    };
    proof {
        assert(label_pairs(outcome_labels@) =~= seq![
            ("name"@, result@.name),
            ("status"@, result@.status.text()),
        ]);
        assert(label_pairs(duration_labels@) =~= seq![("name"@, result@.name)]);
    }
    (outcome, duration)
}

/// What the outcomes of a sweep emit: for each result, in order, the two
/// emissions of [`emit_facade_metrics`].
pub fn sweep_emissions(results: &[CheckResult]) -> (emissions: Vec<Emission>)
    ensures
        emissions@.len() == 2 * results@.len(),
        forall|i: int|
            0 <= i < results@.len() ==> {
                &&& emissions@[2 * i]@ == outcome_observation((#[trigger] results@[i])@)
                &&& emissions@[2 * i + 1]@ == duration_observation(results@[i]@)
            },
{
    let mut emissions: Vec<Emission> = Vec::new();
    let mut i: usize = 0;
    while i < results.len()
        invariant
            i <= results.len(),
            emissions@.len() == 2 * i,
            forall|k: int|
                0 <= k < i ==> {
                    &&& emissions@[2 * k]@ == outcome_observation((#[trigger] results@[k])@)
                    &&& emissions@[2 * k + 1]@ == duration_observation(results@[k]@)
                },
        decreases results.len() - i,
    {
        let (outcome, duration) = emit_facade_metrics(&results[i]);
        emissions.push(outcome);
        emissions.push(duration);
        i += 1;
    }
    emissions
}

impl<C> Default for HealthRegistry<C> {
    /// Create a new empty health registry.
    fn default() -> (r: Self)
        ensures
            r@.checks == Seq::<CheckEntry<C>>::empty(),
            r@.default_timeout == DEFAULT_TIMEOUT_SECS * crate::duration::NANOS_PER_SEC,
    {
        HealthRegistry::new()
    }
}

/// The view of an optional string slice.
pub open spec fn opt_str(s: Option<&str>) -> Option<Seq<char>> {
    match s {
        Some(text) => Some(text@),
        None => None,
    }
}

/// A sweep without a group runs every check.
pub proof fn lemma_swept_all<C>(checks: Seq<CheckEntry<C>>)
    ensures
        swept(checks, None) == checks,
    decreases checks.len(),
{
    reveal(Seq::filter);
    if checks.len() > 0 {
        lemma_swept_all(checks.drop_last());
        assert(checks.drop_last().push(checks.last()) =~= checks);
    }
}

/// A sweep has one report for each of its checks, in registration order and
/// under the name of the check.
pub proof fn law_one_report_per_check<C>(
    checks: Seq<CheckEntry<C>>,
    deadline: nat,
    runs: Seq<CheckRun>,
)
    ensures
        sweep_reports(checks, deadline, runs).len() == checks.len(),
        forall|i: int|
            0 <= i < checks.len() ==> (#[trigger] sweep_reports(checks, deadline, runs)[i]).name
                == checks[i].name,
{
}

/// What is reported of one check does not depend on how another one ran: one
/// that hangs or fails changes no report but its own.
pub proof fn law_checks_are_independent<C>(
    checks: Seq<CheckEntry<C>>,
    deadline: nat,
    runs: Seq<CheckRun>,
    other: int,
    other_run: CheckRun,
)
    requires
        runs.len() == checks.len(),
        0 <= other < runs.len(),
    ensures
        sweep_reports(checks, deadline, runs.update(other, other_run)) == sweep_reports(
            checks,
            deadline,
            runs,
        ).update(other, report(checks[other], deadline, other_run)),
{
    assert(sweep_reports(checks, deadline, runs.update(other, other_run)) =~= sweep_reports(
        checks,
        deadline,
        runs,
    ).update(other, report(checks[other], deadline, other_run)));
}

/// A check that fails or misses its deadline reports `Unhealthy` with a
/// message; a check that yields a status reports that status and no message.
pub proof fn law_failures_are_unhealthy_and_explained<C>(
    check: CheckEntry<C>,
    deadline: nat,
    run: CheckRun,
)
    ensures
        match run.verdict(deadline) {
            Ok(status) => {
                &&& report(check, deadline, run).status == status
                &&& report(check, deadline, run).message is None
            },
            Err(failure) => {
                &&& report(check, deadline, run).status == HealthStatus::Unhealthy
                &&& report(check, deadline, run).message == Some(failure.text())
            },
        },
        run.outcome is DeadlineElapsed ==> report(check, deadline, run).message == Some(
            "health check timed out after "@ + crate::duration::debug_display(deadline),
        ),
{
}

/// One failing check makes the whole sweep `Unhealthy`, whatever the others
/// report.
pub proof fn law_one_failure_is_enough<C>(
    checks: Seq<CheckEntry<C>>,
    deadline: nat,
    runs: Seq<CheckRun>,
    failing: int,
)
    requires
        runs.len() == checks.len(),
        0 <= failing < runs.len(),
        !(runs[failing].outcome matches Outcome::Finished(Ok(_))),
    ensures
        worst(statuses(sweep_reports(checks, deadline, runs))) == HealthStatus::Unhealthy,
{
    let all = statuses(sweep_reports(checks, deadline, runs));
    assert(all[failing] == HealthStatus::Unhealthy);
    crate::types::law_worst_is_the_least_healthy(all);
}

/// The sweep of a registry is never healthier than any of its checks, and
/// `Healthy` if it has none.
pub proof fn law_sweep_is_as_bad_as_its_worst_check<C>(
    checks: Seq<CheckEntry<C>>,
    deadline: nat,
    runs: Seq<CheckRun>,
)
    ensures
        ({
            let reports = sweep_reports(checks, deadline, runs);
            &&& forall|i: int|
                0 <= i < reports.len() ==> worst(statuses(reports)).severity() >= (
                #[trigger] reports[i]).status.severity()
            &&& checks.len() == 0 ==> worst(statuses(reports)) == HealthStatus::Healthy
        }),
{
    let reports = sweep_reports(checks, deadline, runs);
    let all = statuses(reports);
    crate::types::law_worst_is_the_least_healthy(all);
    assert forall|i: int| 0 <= i < reports.len() implies worst(all).severity() >= (
    #[trigger] reports[i]).status.severity() by {
        assert(all[i] == reports[i].status);
    }
}

/// The elements of `xs` that stand beside the checks which a sweep runs.
pub open spec fn restricted<C, T>(
    checks: Seq<CheckEntry<C>>,
    group: Option<Seq<char>>,
    xs: Seq<T>,
) -> Seq<T>
    decreases checks.len(),
{
    if checks.len() == 0 {
        Seq::empty()
    } else {
        let before = restricted(checks.drop_last(), group, xs.drop_last());
        if in_sweep(checks.last(), group) {
            before.push(xs.last())
        } else {
            before
        }
    }
}

/// The sweep of a group is the registry-wide sweep restricted to that group: it
/// runs the group's checks and no others, in the same order, and where they run
/// alike it reports the same.
pub proof fn law_group_sweep_is_part_of_the_whole<C>(
    checks: Seq<CheckEntry<C>>,
    group: Option<Seq<char>>,
    deadline: nat,
    runs: Seq<CheckRun>,
)
    requires
        runs.len() == checks.len(),
    ensures
        swept(checks, group) == restricted(checks, group, checks),
        restricted(checks, group, runs).len() == swept(checks, group).len(),
        sweep_reports(swept(checks, group), deadline, restricted(checks, group, runs))
            == restricted(checks, group, sweep_reports(checks, deadline, runs)),
    decreases checks.len(),
{
    reveal(Seq::filter);
    let whole = sweep_reports(checks, deadline, runs);
    let part = sweep_reports(swept(checks, group), deadline, restricted(checks, group, runs));
    if checks.len() > 0 {
        let checks0 = checks.drop_last();
        let runs0 = runs.drop_last();
        law_group_sweep_is_part_of_the_whole(checks0, group, deadline, runs0);
        assert(whole.drop_last() =~= sweep_reports(checks0, deadline, runs0));
        let part0 = sweep_reports(
            swept(checks0, group),
            deadline,
            restricted(checks0, group, runs0),
        );
        if in_sweep(checks.last(), group) {
            assert(part =~= part0.push(whole.last()));
        } else {
            assert(part =~= part0);
        }
    } else {
        assert(part =~= Seq::empty());
    }
}

/// A sweep runs a check exactly if it is registered and, for the sweep of a
/// group, registered in that group.
pub proof fn law_sweep_selects_by_group<C>(
    checks: Seq<CheckEntry<C>>,
    group: Option<Seq<char>>,
    check: CheckEntry<C>,
)
    ensures
        swept(checks, group).contains(check) <==> (checks.contains(check) && in_sweep(check, group)),
    decreases checks.len(),
{
    reveal(Seq::filter);
    if checks.len() > 0 {
        let checks0 = checks.drop_last();
        law_sweep_selects_by_group(checks0, group, check);
        assert(checks0.push(checks.last()) =~= checks);
        lemma_contains_push(checks0, checks.last(), check);
        lemma_contains_push(swept(checks0, group), checks.last(), check);
    }
}

proof fn lemma_contains_push<T>(s: Seq<T>, last: T, x: T)
    ensures
        s.push(last).contains(x) <==> (s.contains(x) || x == last),
{
    if s.contains(x) {
        let k = choose|k: int| 0 <= k < s.len() && s[k] == x;
        assert(s.push(last)[k] == x);
    }
    if x == last {
        assert(s.push(last)[s.len() as int] == x);
    }
}

/// A check never joins more than one group, and one without a group joins none.
pub proof fn law_no_check_joins_two_groups<C>(
    checks: Seq<CheckEntry<C>>,
    a: Seq<char>,
    b: Seq<char>,
    check: CheckEntry<C>,
)
    requires
        a != b,
    ensures
        !(swept(checks, Some(a)).contains(check) && swept(checks, Some(b)).contains(check)),
        check.group is None ==> !swept(checks, Some(a)).contains(check),
{
    law_sweep_selects_by_group(checks, Some(a), check);
    law_sweep_selects_by_group(checks, Some(b), check);
}

/// Registering a check adds it to the end of the registry-wide sweep and of the
/// sweep of its group, and leaves the sweep of every other group as it was.
pub proof fn law_registration_extends_its_sweeps<C>(
    registry: RegistryState<C>,
    group: Option<Seq<char>>,
    name: Seq<char>,
    check_fn: C,
    probed: Seq<char>,
)
    ensures
        ({
            let after = registry.with_check(group, name, check_fn);
            let entry = CheckEntry { name, group, check_fn };
            &&& swept(after.checks, None) == swept(registry.checks, None).push(entry)
            &&& group == Some(probed) ==> swept(after.checks, Some(probed)) == swept(
                registry.checks,
                Some(probed),
            ).push(entry)
            &&& group != Some(probed) ==> swept(after.checks, Some(probed)) == swept(
                registry.checks,
                Some(probed),
            )
        }),
{
    reveal(Seq::filter);
    let after = registry.with_check(group, name, check_fn);
    assert(after.checks.drop_last() =~= registry.checks);
}

/// A group in which nothing was registered has nothing to run and nothing to
/// report.
pub proof fn law_unknown_group_is_empty<C>(
    registry: RegistryState<C>,
    group: Seq<char>,
    runs: Seq<CheckRun>,
)
    requires
        forall|i: int| 0 <= i < registry.checks.len() ==> registry.checks[i].group != Some(group),
    ensures
        swept(registry.checks, Some(group)).len() == 0,
        registry.reports(Some(group), runs) == Seq::<CheckReport>::empty(),
{
    let selected = swept(registry.checks, Some(group));
    if selected.len() > 0 {
        assert(selected.contains(selected[0]));
        law_sweep_selects_by_group(registry.checks, Some(group), selected[0]);
        let k = choose|k: int|
            0 <= k < registry.checks.len() && registry.checks[k] == selected[0];
        assert(registry.checks[k].group != Some(group));
    }
    assert(registry.reports(Some(group), runs) =~= Seq::<CheckReport>::empty());
}

/// Registering a check keeps every earlier registration where it is and adds one
/// after them, whatever names are there already; the next registry-wide sweep
/// has one more report, the last one under the new name.
pub proof fn law_registration_appends<C>(
    registry: RegistryState<C>,
    group: Option<Seq<char>>,
    name: Seq<char>,
    check_fn: C,
    runs: Seq<CheckRun>,
)
    ensures
        ({
            let after = registry.with_check(group, name, check_fn);
            let n = registry.checks.len();
            &&& after.default_timeout == registry.default_timeout
            &&& after.checks.len() == n + 1
            &&& forall|i: int|
                0 <= i < n ==> (#[trigger] after.checks[i]) == registry.checks[i]
            &&& after.checks[n as int] == (CheckEntry { name, group, check_fn })
            &&& after.reports(None, runs).len() == n + 1
            &&& after.reports(None, runs).last().name == name
        }),
{
    lemma_swept_all(registry.with_check(group, name, check_fn).checks);
}

/// A copy of a registry sweeps as the registry does: it runs checks of the same
/// names and groups in the same order and, where they run alike, reports the
/// same.
pub proof fn law_copy_reports_the_same<C: Clone>(
    registry: RegistryState<C>,
    copy: RegistryState<C>,
    group: Option<Seq<char>>,
    runs: Seq<CheckRun>,
)
    requires
        registry.copied_to(copy),
    ensures
        swept(copy.checks, group).len() == swept(registry.checks, group).len(),
        forall|i: int|
            0 <= i < swept(registry.checks, group).len() ==> (#[trigger] swept(
                registry.checks,
                group,
            )[i]).copied_to(swept(copy.checks, group)[i]),
        copy.reports(group, runs) == registry.reports(group, runs),
    decreases registry.checks.len(),
{
    reveal(Seq::filter);
    let selected = swept(registry.checks, group);
    let copied = swept(copy.checks, group);
    if registry.checks.len() > 0 {
        let registry0 = RegistryState { checks: registry.checks.drop_last(), ..registry };
        let copy0 = RegistryState { checks: copy.checks.drop_last(), ..copy };
        assert forall|i: int| 0 <= i < registry0.checks.len() implies (
        #[trigger] registry0.checks[i]).copied_to(copy0.checks[i]) by {
            assert(registry.checks[i].copied_to(copy.checks[i]));
        }
        law_copy_reports_the_same(registry0, copy0, group, runs);
        assert(registry.checks[registry.checks.len() - 1].copied_to(
            copy.checks[copy.checks.len() - 1],
        ));
        let selected0 = swept(registry0.checks, group);
        assert forall|i: int| 0 <= i < selected.len() implies (#[trigger] selected[i]).copied_to(
            copied[i],
        ) by {
            if i < selected0.len() {
                assert(selected0[i].copied_to(swept(copy0.checks, group)[i]));
            }
        }
    }
    assert forall|i: int| 0 <= i < selected.len() implies (#[trigger] copy.reports(group, runs)[i])
        == registry.reports(group, runs)[i] by {
        assert(selected[i].copied_to(copied[i]));
    }
    assert(copy.reports(group, runs) =~= registry.reports(group, runs));
}

/// Clones of a handle share their checks. Once a check was registered, through
/// whichever of them, the sweeps of all of them run it, after the checks that
/// were there before; they differ in nothing but the timeout that each has for
/// itself.
pub proof fn law_clones_share_their_checks<C: Clone>(
    shared: RegistryState<C>,
    group: Option<Seq<char>>,
    name: Seq<char>,
    check_fn: C,
    one: RegistryState<C>,
    one_timeout: nat,
    other: RegistryState<C>,
    other_timeout: nat,
    probed: Option<Seq<char>>,
    runs: Seq<CheckRun>,
)
    requires
        shared.with_check(group, name, check_fn).seen_by(one_timeout).copied_to(one),
        shared.with_check(group, name, check_fn).seen_by(other_timeout).copied_to(other),
    ensures
        one.default_timeout == one_timeout,
        other.default_timeout == other_timeout,
        ({
            let after = shared.with_check(group, name, check_fn);
            &&& one.checks.len() == other.checks.len() == shared.checks.len() + 1
            &&& forall|i: int|
                0 <= i < after.checks.len() ==> {
                    &&& (#[trigger] after.checks[i]).copied_to(one.checks[i])
                    &&& after.checks[i].copied_to(other.checks[i])
                }
            &&& one.checks.last().name == name
            &&& one.checks.last().group == group
            &&& other.checks.last().name == name
            &&& other.checks.last().group == group
            &&& cloned(check_fn, one.checks.last().check_fn)
            &&& cloned(check_fn, other.checks.last().check_fn)
            &&& one.reports(probed, runs) == after.seen_by(one_timeout).reports(probed, runs)
            &&& other.reports(probed, runs) == after.seen_by(other_timeout).reports(probed, runs)
            &&& one.reports(None, runs).len() == other.reports(None, runs).len()
                == shared.checks.len() + 1
            &&& one.reports(None, runs).last().name == name
            &&& other.reports(None, runs).last().name == name
        }),
{
    let after = shared.with_check(group, name, check_fn);
    let one_sees = after.seen_by(one_timeout);
    let other_sees = after.seen_by(other_timeout);
    assert forall|i: int| 0 <= i < after.checks.len() implies {
        &&& (#[trigger] after.checks[i]).copied_to(one.checks[i])
        &&& after.checks[i].copied_to(other.checks[i])
    } by {
        assert(one_sees.checks[i].copied_to(one.checks[i]));
        assert(other_sees.checks[i].copied_to(other.checks[i]));
    }
    assert(after.checks[shared.checks.len() as int].copied_to(one.checks.last()));
    law_copy_reports_the_same(one_sees, one, probed, runs);
    law_copy_reports_the_same(other_sees, other, probed, runs);
    law_copy_reports_the_same(one_sees, one, None, runs);
    law_copy_reports_the_same(other_sees, other, None, runs);
    lemma_swept_all(after.checks);
}

/// What is reported of a run, by how the run ended. It is under the name of the
/// check and with the time that the run took, however it ended. A status is
/// reported as it is, without a message. An error, whatever it is, is
/// `Unhealthy` with the error's message, and a missed deadline is `Unhealthy`
/// with a message that names the deadline.
pub proof fn law_report_of_each_outcome<C>(check: CheckEntry<C>, deadline: nat, run: CheckRun)
    ensures
        report(check, deadline, run).name == check.name,
        report(check, deadline, run).duration == run.elapsed@,
        match run.outcome {
            Outcome::Finished(Ok(status)) => {
                &&& report(check, deadline, run).status == status
                &&& report(check, deadline, run).message is None
            },
            Outcome::Finished(Err(err)) => {
                &&& report(check, deadline, run).status == HealthStatus::Unhealthy
                &&& report(check, deadline, run).message == Some(err@.text())
            },
            Outcome::DeadlineElapsed => {
                &&& report(check, deadline, run).status == HealthStatus::Unhealthy
                &&& report(check, deadline, run).message == Some(
                    "health check timed out after "@ + crate::duration::debug_display(deadline),
                )
            },
        },
{
}

/// Two runs of a check that took different times have different reports, and the
/// longer run has the longer duration, whether they failed or not.
pub proof fn law_reports_keep_the_elapsed_time<C>(
    check: CheckEntry<C>,
    deadline: nat,
    a: CheckRun,
    b: CheckRun,
)
    ensures
        a.elapsed@ < b.elapsed@ <==> report(check, deadline, a).duration < report(
            check,
            deadline,
            b,
        ).duration,
        a.elapsed@ == b.elapsed@ <==> report(check, deadline, a).duration == report(
            check,
            deadline,
            b,
        ).duration,
{
}

/// A sweep of a registry, or of one of its groups, reports of its `i`-th check
/// what the `i`-th run came to: its name, the time that it took, the status that
/// it returned, or `Unhealthy` and the message of its error or of the registry's
/// own timeout.
pub proof fn law_sweep_reports_each_run<C>(
    registry: RegistryState<C>,
    group: Option<Seq<char>>,
    runs: Seq<CheckRun>,
    i: int,
)
    requires
        0 <= i < swept(registry.checks, group).len(),
    ensures
        registry.reports(group, runs).len() == swept(registry.checks, group).len(),
        ({
            let reported = registry.reports(group, runs)[i];
            &&& reported.name == swept(registry.checks, group)[i].name
            &&& reported.duration == runs[i].elapsed@
            &&& match runs[i].outcome {
                Outcome::Finished(Ok(status)) => reported.status == status && reported.message is
                    None,
                Outcome::Finished(Err(err)) => reported.status == HealthStatus::Unhealthy
                    && reported.message == Some(err@.text()),
                Outcome::DeadlineElapsed => reported.status == HealthStatus::Unhealthy
                    && reported.message == Some(
                    "health check timed out after "@ + crate::duration::debug_display(
                        registry.default_timeout,
                    ),
                ),
            }
        }),
        registry.reports(group, runs)[i] == sweep_reports(
            swept(registry.checks, group),
            registry.default_timeout,
            runs,
        )[i],
        group is None ==> swept(registry.checks, group) == registry.checks,
{
    lemma_swept_all(registry.checks);
    law_report_of_each_outcome(
        swept(registry.checks, group)[i],
        registry.default_timeout,
        runs[i],
    );
}

/// The sweep of a registry without checks runs none. The sweep of a group runs
/// exactly the checks that were registered in that very group, in registration
/// order; a registry-wide sweep runs every check.
pub proof fn law_sweep_of_a_group<C>(
    checks: Seq<CheckEntry<C>>,
    group: Seq<char>,
    check: CheckEntry<C>,
)
    ensures
        swept(Seq::<CheckEntry<C>>::empty(), Some(group)) == Seq::<CheckEntry<C>>::empty(),
        swept(checks, None) == checks,
        swept(checks, Some(group)).contains(check) <==> checks.contains(check) && check.group
            == Some(group),
        swept(checks.push(check), Some(group)) == if check.group == Some(group) {
            swept(checks, Some(group)).push(check)
        } else {
            swept(checks, Some(group))
        },
{
    lemma_swept_all(checks);
    law_sweep_selects_by_group(checks, Some(group), check);
    reveal(Seq::filter);
    assert(checks.push(check).drop_last() =~= checks);
}

/// Every executed check increments the outcome counter by one, in the series of
/// its name and of its status in lower case; so two results of one name increment
/// the same series exactly if their statuses are equal.
pub proof fn law_outcome_series_tell_statuses_apart(a: CheckReport, b: CheckReport)
    ensures
        outcome_observation(a) == (Observation::Increment {
            metric: "healthkit_check_result"@,
            labels: seq![
                ("name"@, a.name),
                (
                    "status"@,
                    match a.status {
                        HealthStatus::Healthy => "healthy"@,
                        HealthStatus::Degraded => "degraded"@,
                        HealthStatus::Unhealthy => "unhealthy"@,
                    },
                ),
            ],
            by: 1,
        }),
        outcome_observation(a) == outcome_observation(b) <==> a.name == b.name && a.status
            == b.status,
{
    crate::types::law_status_names_are_distinct(a.status, b.status);
    let left = outcome_observation(a)->Increment_labels;
    let right = outcome_observation(b)->Increment_labels;
    if outcome_observation(a) == outcome_observation(b) {
        assert(left[0].1 == right[0].1);
        assert(left[1].1 == right[1].1);
    }
}

/// Every executed check records its own duration in the series of its name; so
/// two results record the same exactly if they agree in both.
pub proof fn law_durations_are_recorded(a: CheckReport, b: CheckReport)
    ensures
        duration_observation(a) == (Observation::Record {
            metric: "healthkit_check_duration_seconds"@,
            labels: seq![("name"@, a.name)],
            value: a.duration,
        }),
        duration_observation(a) == duration_observation(b) <==> a.name == b.name && a.duration
            == b.duration,
{
    let left = duration_observation(a)->Record_labels;
    let right = duration_observation(b)->Record_labels;
    if duration_observation(a) == duration_observation(b) {
        assert(left[0].1 == right[0].1);
    }
}

/// What an emission tells the recorder is what it holds.
pub proof fn law_observations_are_the_emissions(emission: Emission)
    ensures
        match emission {
            Emission::Increment { metric, labels, by } => emission@ matches Observation::Increment {
                metric: told,
                labels: pairs,
                by: amount,
            } && told == metric@ && amount == by && pairs.len() == labels@.len() && forall|i: int|
                0 <= i < pairs.len() ==> #[trigger] pairs[i] == (labels@[i].0@, labels@[i].1@),
            Emission::Record { metric, labels, value } => emission@ matches Observation::Record {
                metric: told,
                labels: pairs,
                value: amount,
            } && told == metric@ && amount == value@ && pairs.len() == labels@.len()
                && forall|i: int|
                0 <= i < pairs.len() ==> #[trigger] pairs[i] == (labels@[i].0@, labels@[i].1@),
        },
{
}

/// A handle sees the shared checks as they are and nothing but its own timeout;
/// and what is copied keeps names, groups, order and timeout.
pub proof fn law_handle_sees_the_shared_checks<C: Clone>(
    shared: RegistryState<C>,
    timeout: nat,
    copy: RegistryState<C>,
)
    requires
        shared.seen_by(timeout).copied_to(copy),
    ensures
        copy.default_timeout == timeout,
        copy.checks.len() == shared.checks.len(),
        forall|i: int|
            0 <= i < shared.checks.len() ==> {
                &&& (#[trigger] copy.checks[i]).name == shared.checks[i].name
                &&& copy.checks[i].group == shared.checks[i].group
                &&& cloned(shared.checks[i].check_fn, copy.checks[i].check_fn)
            },
{
    assert forall|i: int| 0 <= i < shared.checks.len() implies {
        &&& (#[trigger] copy.checks[i]).name == shared.checks[i].name
        &&& copy.checks[i].group == shared.checks[i].group
        &&& cloned(shared.checks[i].check_fn, copy.checks[i].check_fn)
    } by {
        assert(shared.seen_by(timeout).checks[i].copied_to(copy.checks[i]));
    }
}

/// What is registered is what the registered check holds.
pub proof fn law_entries_are_the_registered_checks<C>(check: RegisteredCheck<C>, group: Option<&str>)
    ensures
        check@.name == check.name@,
        check@.check_fn == check.check_fn,
        match check.group {
            Some(own) => check@.group == Some(own@),
            None => check@.group is None,
        },
        match group {
            Some(wanted) => opt_str(group) == Some(wanted@),
            None => opt_str(group) is None,
        },
{
}

/// What a call of `check_all` returns, by the runs that it is given: one result
/// for each check, in registration order, with the name of the check, the time
/// that its run took, and what the run came to.
pub proof fn law_check_all_returns_each_run<C>(
    registry: HealthRegistry<C>,
    runs: &[CheckRun],
    results: Vec<CheckResult>,
    i: int,
)
    requires
        call_ensures(HealthRegistry::<C>::check_all, (&registry, runs), results),
        runs@.len() == registry@.checks.len(),
        0 <= i < registry@.checks.len(),
    ensures
        results@.len() == registry@.checks.len(),
        results@[i].name@ == registry@.checks[i].name,
        results@[i].duration@ == runs@[i].elapsed@,
        match runs@[i].outcome {
            Outcome::Finished(Ok(status)) => results@[i].status == status && results@[i].message is
                None,
            Outcome::Finished(Err(err)) => {
                &&& results@[i].status == HealthStatus::Unhealthy
                &&& results@[i].message matches Some(message) && message@ == err@.text()
            },
            Outcome::DeadlineElapsed => {
                &&& results@[i].status == HealthStatus::Unhealthy
                &&& results@[i].message matches Some(message) && message@
                    == "health check timed out after "@ + crate::duration::debug_display(
                    registry@.default_timeout,
                )
            },
        },
{
    lemma_swept_all(registry@.checks);
    law_sweep_reports_each_run(registry@, None, runs@, i);
    crate::types::law_reports_are_the_results(results@);
    assert(reports(results@)[i] == registry@.reports(None, runs@)[i]);
    assert(reports(results@)[i] == results@[i]@);
}

/// What a call of `check_group` returns, by the runs that it is given: one result
/// for each check that was registered in the group, in registration order, with
/// the name of the check, the time that its run took, and what the run came to.
pub proof fn law_check_group_returns_each_run<C>(
    registry: HealthRegistry<C>,
    group: &str,
    runs: &[CheckRun],
    results: Vec<CheckResult>,
    i: int,
)
    requires
        call_ensures(HealthRegistry::<C>::check_group, (&registry, group, runs), results),
        runs@.len() == swept(registry@.checks, Some(group@)).len(),
        0 <= i < runs@.len(),
    ensures
        results@.len() == runs@.len(),
        exists|check: CheckEntry<C>|
            {
                &&& #[trigger] registry@.checks.contains(check)
                &&& check.group == Some(group@)
                &&& check == swept(registry@.checks, Some(group@))[i]
                &&& results@[i].name@ == check.name
            },
        results@[i].duration@ == runs@[i].elapsed@,
        match runs@[i].outcome {
            Outcome::Finished(Ok(status)) => results@[i].status == status && results@[i].message is
                None,
            Outcome::Finished(Err(err)) => {
                &&& results@[i].status == HealthStatus::Unhealthy
                &&& results@[i].message matches Some(message) && message@ == err@.text()
            },
            Outcome::DeadlineElapsed => {
                &&& results@[i].status == HealthStatus::Unhealthy
                &&& results@[i].message matches Some(message) && message@
                    == "health check timed out after "@ + crate::duration::debug_display(
                    registry@.default_timeout,
                )
            },
        },
{
    let selected = swept(registry@.checks, Some(group@));
    law_sweep_reports_each_run(registry@, Some(group@), runs@, i);
    crate::types::law_reports_are_the_results(results@);
    assert(reports(results@)[i] == registry@.reports(Some(group@), runs@)[i]);
    assert(reports(results@)[i] == results@[i]@);
    assert(selected.contains(selected[i]));
    law_sweep_of_a_group(registry@.checks, group@, selected[i]);
    assert(registry@.checks.contains(selected[i]));
}

/// Whether a run fails the service: it returned an error, whatever it is, missed
/// its deadline or returned `Unhealthy`.
pub open spec fn run_fails(run: CheckRun) -> bool {
    match run.outcome {
        Outcome::Finished(Ok(status)) => status == HealthStatus::Unhealthy,
        Outcome::Finished(Err(_)) => true,
        Outcome::DeadlineElapsed => true,
    }
}

/// Whether a run returned `Degraded`.
pub open spec fn run_is_degraded(run: CheckRun) -> bool {
    run.outcome matches Outcome::Finished(Ok(status)) && status == HealthStatus::Degraded
}

/// The status that runs amount to: `Unhealthy` exactly if one of them fails,
/// `Degraded` exactly if none fails and one is degraded, and `Healthy` otherwise.
pub open spec fn amounts_to(runs: Seq<CheckRun>, status: HealthStatus) -> bool {
    match status {
        HealthStatus::Unhealthy => exists|i: int|
            0 <= i < runs.len() && run_fails(#[trigger] runs[i]),
        HealthStatus::Degraded => {
            &&& forall|i: int| 0 <= i < runs.len() ==> !run_fails(#[trigger] runs[i])
            &&& exists|i: int| 0 <= i < runs.len() && run_is_degraded(#[trigger] runs[i])
        },
        HealthStatus::Healthy => forall|i: int|
            0 <= i < runs.len() ==> !run_fails(#[trigger] runs[i]) && !run_is_degraded(runs[i]),
    }
}

/// The worst status of a sweep is what its runs amount to.
pub proof fn law_sweep_amounts_to_its_runs<C>(
    checks: Seq<CheckEntry<C>>,
    deadline: nat,
    runs: Seq<CheckRun>,
)
    requires
        runs.len() == checks.len(),
    ensures
        amounts_to(runs, worst(statuses(sweep_reports(checks, deadline, runs)))),
{
    let reported = sweep_reports(checks, deadline, runs);
    let status = worst(statuses(reported));
    crate::types::law_worst_of_reports(reported);
    assert forall|i: int| 0 <= i < runs.len() implies {
        &&& run_fails(#[trigger] runs[i]) <==> reported[i].status == HealthStatus::Unhealthy
        &&& run_is_degraded(runs[i]) <==> reported[i].status == HealthStatus::Degraded
    } by {
        law_report_of_each_outcome(checks[i], deadline, runs[i]);
    }
    if status == HealthStatus::Unhealthy {
        let k = choose|k: int|
            0 <= k < reported.len() && (#[trigger] reported[k]).status == HealthStatus::Unhealthy;
        assert(run_fails(runs[k]));
    } else if status == HealthStatus::Degraded {
        let k = choose|k: int|
            0 <= k < reported.len() && (#[trigger] reported[k]).status == HealthStatus::Degraded;
        assert(run_is_degraded(runs[k]));
    }
}

/// Liveness and readiness are what the runs amount to, and neither ever fails.
pub proof fn law_liveness_and_readiness_agree<C>(
    registry: HealthRegistry<C>,
    runs: &[CheckRun],
    liveness: Result<HealthStatus, HealthCheckError>,
    readiness: Result<(HealthStatus, Vec<CheckResult>), HealthCheckError>,
)
    requires
        runs@.len() == registry@.checks.len(),
        call_ensures(HealthRegistry::<C>::check_liveness, (&registry, runs), liveness),
        call_ensures(HealthRegistry::<C>::check_readiness, (&registry, runs), readiness),
    ensures
        liveness matches Ok(status) && amounts_to(runs@, status),
        readiness matches Ok((status, results)) && {
            &&& amounts_to(runs@, status)
            &&& liveness == Ok::<HealthStatus, HealthCheckError>(status)
            &&& results@.len() == runs@.len()
        },
{
    law_sweep_amounts_to_its_runs(registry@.checks, registry@.default_timeout, runs@);
    if let Ok((_, results)) = readiness {
        crate::types::law_reports_are_the_results(results@);
    }
}

/// What a call of `sweep_emissions` returns: for every result, in order, one
/// increment by one in the series of its name and status, and one record of its
/// duration in the series of its name; and nothing else.
pub proof fn law_sweep_emits_every_result(
    results: &[CheckResult],
    emissions: Vec<Emission>,
    i: int,
)
    requires
        call_ensures(sweep_emissions, (results,), emissions),
        0 <= i < results@.len(),
    ensures
        emissions@.len() == 2 * results@.len(),
        emissions@[2 * i]@ == (Observation::Increment {
            metric: "healthkit_check_result"@,
            labels: seq![
                ("name"@, results@[i].name@),
                (
                    "status"@,
                    match results@[i].status {
                        HealthStatus::Healthy => "healthy"@,
                        HealthStatus::Degraded => "degraded"@,
                        HealthStatus::Unhealthy => "unhealthy"@,
                    },
                ),
            ],
            by: 1,
        }),
        emissions@[2 * i + 1]@ == (Observation::Record {
            metric: "healthkit_check_duration_seconds"@,
            labels: seq![("name"@, results@[i].name@)],
            value: results@[i].duration@,
        }),
{
    let reported = results@[i]@;
    law_outcome_series_tell_statuses_apart(reported, reported);
    law_durations_are_recorded(reported, reported);
    assert(emissions@[2 * i]@ == outcome_observation(reported));
    assert(outcome_observation(reported)->Increment_labels =~= seq![
        ("name"@, results@[i].name@),
        (
            "status"@,
            match results@[i].status {
                HealthStatus::Healthy => "healthy"@,
                HealthStatus::Degraded => "degraded"@,
                HealthStatus::Unhealthy => "unhealthy"@,
            },
        ),
    ]);
}

} // verus!
