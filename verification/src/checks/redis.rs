//! Redis health check.
//!
//! Sends `PING` over a synchronous connection, bounded by a configurable
//! timeout.
use vstd::prelude::*;
use vstd::string::{to_string_from_display_ensures, StringExecFns};

use super::latency_status;
use crate::duration::{debug_display, Duration, MAX_NANOS, NANOS_PER_MILLI, NANOS_PER_SEC};
use crate::error::{verdict, Failure, HealthCheckError};
use crate::registry::{report, CheckEntry, CheckRun, HealthRegistry};
use crate::types::HealthStatus;

verus! {

/// A client of the `redis` crate, not yet connected.
#[verifier::external_type_specification]
#[verifier::external_body]
pub struct ExClient(::redis::Client);

/// An error of the `redis` crate.
#[verifier::external_type_specification]
#[verifier::external_body]
pub struct ExRedisError(::redis::RedisError);

/// The client that `redis::Client::open` makes of a URL, or why it refuses it.
pub uninterp spec fn opened_client(url: Seq<char>) -> Result<::redis::Client, ::redis::RedisError>;

/// A character with an upper-case ASCII letter made lower-case.
pub open spec fn ascii_lower(ch: char) -> char {
    if 'A' <= ch && ch <= 'Z' {
        (ch as u32 + 32) as char
    } else {
        ch
    }
}

/// Whether a text begins with `scheme`, in upper or lower case, and a colon.
pub open spec fn has_scheme(url: Seq<char>, scheme: Seq<char>) -> bool {
    &&& url.len() > scheme.len()
    &&& url[scheme.len() as int] == ':'
    &&& forall|i: int| 0 <= i < scheme.len() ==> ascii_lower(#[trigger] url[i]) == scheme[i]
}

/// Whether a URL is of a server that is reached over plain TCP.
pub open spec fn has_tcp_scheme(url: Seq<char>) -> bool {
    has_scheme(url, "redis"@) || has_scheme(url, "valkey"@)
}

/// Whether a URL is of a Redis server that is reached in any way: over plain
/// TCP, over TLS or through a Unix socket.
pub open spec fn has_redis_scheme(url: Seq<char>) -> bool {
    ||| has_tcp_scheme(url)
    ||| has_scheme(url, "rediss"@)
    ||| has_scheme(url, "valkeys"@)
    ||| has_scheme(url, "unix"@)
    ||| has_scheme(url, "redis+unix"@)
    ||| has_scheme(url, "valkey+unix"@)
}

/// Whether no space or control character stands before the first colon. Such
/// characters may be left out when the scheme is read.
pub open spec fn has_no_blank_before_colon(url: Seq<char>) -> bool {
    forall|i: int|
        0 <= i < url.len() && (#[trigger] url[i]) <= ' ' ==> url.take(i).contains(':')
}

/// Whether a text is not the URL of a Redis server: it has no scheme, or one of
/// something else.
pub open spec fn is_foreign(url: Seq<char>) -> bool {
    !url.contains(':') || (!has_redis_scheme(url) && has_no_blank_before_colon(url))
}

/// Calls `redis::Client::open`, which parses the URL and opens no connection.
///
/// The contract claims that a client that is made depends on nothing but the
/// URL; that a text that is not the URL of a Redis server is refused; and that
/// for such a text, and for the URL of a TCP server, the error depends on nothing
/// but the URL either. Left unsaid is which other URLs are refused: for a Unix
/// socket that depends on the platform, and for TLS on how the `redis` crate was
/// built. (On Redox the path of a Unix socket is written differently from other
/// platforms; there the name stands for what that platform gives.)
#[verifier::external_body]
fn open_client(url: &str) -> (client: Result<::redis::Client, ::redis::RedisError>)
    ensures
        client is Ok ==> client == opened_client(url@),
        is_foreign(url@) ==> client is Err,
        has_tcp_scheme(url@) || is_foreign(url@) ==> client == opened_client(url@),
{
    ::redis::Client::open(url)
}

/// Whether an error is displayed as `text`.
pub open spec fn displayed(err: ::redis::RedisError, text: String) -> bool {
    to_string_from_display_ensures(&err, text)
}

/// Whether some error of the `redis` crate is displayed as `text`.
pub open spec fn is_error_text(text: String) -> bool {
    exists|err: ::redis::RedisError| displayed(err, text)
}

/// What a probe of a Redis server came to.
#[derive(Debug)]
pub enum RedisProbe {
    /// The server replied to `PING`.
    Replied(String),
    /// The connection or the command failed, with this error.
    Failed(String),
    /// The task that ran the probe failed, with this error.
    TaskFailed(String),
    /// The probe did not finish within the timeout.
    TimedOut,
}

/// Health check that verifies a Redis server answers `PING`.
///
/// Semantics:
/// - `PING` replies `PONG` within `timeout` and not above `warn_above` is
///   [`HealthStatus::Healthy`]
/// - `PING` succeeds but took longer than `warn_above` is
///   [`HealthStatus::Degraded`]
/// - a connection or command error or a timeout is an [`Err`], which the
///   registry folds into [`HealthStatus::Unhealthy`]
#[derive(Clone)]
pub struct RedisCheck {
    pub url: String,
    pub timeout: Duration,
    pub warn_above: Duration,
}

/// What a probe that took `elapsed` nanoseconds amounts to.
pub open spec fn redis_verdict(
    probe: RedisProbe,
    elapsed: nat,
    timeout: nat,
    warn_above: nat,
) -> Result<HealthStatus, Failure> {
    match probe {
        RedisProbe::Replied(reply) => if reply@ == "PONG"@ {
            Ok(latency_status(elapsed, warn_above))
        } else {
            Err(Failure::DependencyUnavailable("unexpected PING reply: "@ + reply@))
        },
        RedisProbe::Failed(err) => Err(
            Failure::DependencyUnavailable("redis probe failed: "@ + err@),
        ),
        RedisProbe::TaskFailed(err) => Err(Failure::CheckFailed("redis probe task failed: "@ + err@)),
        RedisProbe::TimedOut => Err(Failure::CheckTimedOut(timeout)),
    }
}

impl RedisCheck {
    /// Create a check for the Redis server at `url` (e.g. `redis://host:6379`).
    ///
    /// `timeout` bounds each probe (connection + `PING`); `warn_above_ms` is
    /// the latency threshold above which a successful probe is reported as
    /// `Degraded` instead of `Healthy`.
    pub fn new(url: &str, timeout: Duration, warn_above_ms: u64) -> (check: Self)
        ensures
            check.url@ == url@,
            check.timeout == timeout,
            check.warn_above@ == warn_above_ms * NANOS_PER_MILLI,
    {
        RedisCheck {
            url: url.to_owned(),
            timeout,
            warn_above: Duration::from_millis(warn_above_ms),
        }
    }

    /// Override the probe timeout.
    pub fn with_timeout(self, timeout: Duration) -> (check: Self)
        ensures
            check == (RedisCheck { url: self.url, timeout, warn_above: self.warn_above }),
    {
        RedisCheck { url: self.url, timeout, warn_above: self.warn_above }
    }

    /// Override the latency threshold (in milliseconds) above which a
    /// successful probe is reported as `Degraded`.
    pub fn with_warn_above_ms(self, warn_above_ms: u64) -> (check: Self)
        ensures
            check.url == self.url,
            check.timeout == self.timeout,
            check.warn_above@ == warn_above_ms * NANOS_PER_MILLI,
    {
        RedisCheck {
            url: self.url,
            timeout: self.timeout,
            warn_above: Duration::from_millis(warn_above_ms),
        }
    }

    /// The client to connect and send `PING` with. A URL that is not
    /// understood is a failed probe, and its error is kept.
    pub fn client(&self) -> (client: Result<::redis::Client, RedisProbe>)
        ensures
            client matches Ok(made) ==> opened_client(self.url@) == Ok::<
                ::redis::Client,
                ::redis::RedisError,
            >(made),
            client matches Err(probe) ==> probe matches RedisProbe::Failed(text) && is_error_text(
                text,
            ),
            is_foreign(self.url@) ==> client is Err,
            has_tcp_scheme(self.url@) || is_foreign(self.url@) ==> match opened_client(self.url@) {
                Ok(opened) => client == Ok::<::redis::Client, RedisProbe>(opened),
                Err(err) => client matches Err(RedisProbe::Failed(text))
                    && to_string_from_display_ensures(&err, text),
            },
    {
        match open_client(self.url.as_str()) {
            Ok(client) => Ok(client),
            Err(err) => {
                let text = err.to_string();
                assert(displayed(err, text));
                assert(is_error_text(text));
                Err(RedisProbe::Failed(text))
            },
        }
    }

    /// Map what a probe came to after `elapsed` to a health status.
    pub fn check(&self, probe: RedisProbe, elapsed: Duration) -> (outcome: Result<
        HealthStatus,
        HealthCheckError,
    >)
        ensures
            verdict(outcome) == redis_verdict(
                probe,
                elapsed@,
                self.timeout@,
                self.warn_above@,
            ),
    {
        match probe {
            RedisProbe::Replied(reply) => {
                if reply != "PONG".to_owned() {
                    Err(
                        HealthCheckError::DependencyUnavailable(
                            "unexpected PING reply: ".to_owned().concat(reply.as_str()),
                        ),
                    )
                } else if elapsed.as_nanos() > self.warn_above.as_nanos() {
                    Ok(HealthStatus::Degraded)
                } else {
                    Ok(HealthStatus::Healthy)
                }
            },
            RedisProbe::Failed(err) => Err(
                HealthCheckError::DependencyUnavailable(
                    "redis probe failed: ".to_owned().concat(err.as_str()),
                ),
            ),
            RedisProbe::TaskFailed(err) => Err(
                HealthCheckError::CheckFailed(
                    "redis probe task failed: ".to_owned().concat(err.as_str()),
                ),
            ),
            RedisProbe::TimedOut => Err(HealthCheckError::CheckTimedOut(self.timeout)),
        }
    }

    /// Register this check with `registry` under `name`; `run` makes of it what
    /// the registry runs.
    pub fn register<C, F: FnOnce(RedisCheck) -> C>(
        self,
        registry: &mut HealthRegistry<C>,
        name: &str,
        run: F,
    )
        requires
            run.requires((self,)),
        ensures
            exists|check_fn: C| #[trigger]
                run.ensures((self,), check_fn) && final(registry)@ == old(registry)@.with_check(
                    None,
                    name@,
                    check_fn,
                ),
    {
        let check_fn = run(self);
        registry.add_check(name, check_fn);
    }
}

/// The bound on each socket read and write of a probe.
///
/// Slack above the probe's own timeout keeps that timeout authoritative while
/// guaranteeing that a blocked read or write still terminates.
pub fn socket_deadline(io_deadline: Duration) -> (slack: Duration)
    requires
        io_deadline@ + NANOS_PER_SEC <= MAX_NANOS,
    ensures
        slack@ == io_deadline@ + NANOS_PER_SEC,
{
    Duration::new(io_deadline.as_secs() + 1, io_deadline.subsec_nanos())
}

/// A Redis check is healthy or degraded exactly if the server replied `PONG`;
/// of anything else the registry makes an unhealthy result with a message.
pub proof fn law_redis_needs_pong<C>(
    check: CheckEntry<C>,
    deadline: nat,
    run: CheckRun,
    probe: RedisProbe,
    elapsed: nat,
    timeout: nat,
    warn_above: nat,
)
    requires
        run.verdict(deadline) == redis_verdict(probe, elapsed, timeout, warn_above),
    ensures
        ({
            let replied = probe matches RedisProbe::Replied(reply) && reply@ == "PONG"@;
            let reported = report(check, deadline, run);
            &&& replied ==> reported.status == latency_status(elapsed, warn_above)
            &&& replied <==> reported.status != HealthStatus::Unhealthy
            &&& replied <==> reported.message is None
        }),
{
}

/// The message of a failed probe is fixed text followed by what the server, the
/// client or the task said, or by the timeout. Nothing of the URL, and so no
/// credential in it, is added.
pub proof fn law_redis_message_quotes_only_the_probe(
    probe: RedisProbe,
    elapsed: nat,
    timeout: nat,
    warn_above: nat,
)
    ensures
        redis_verdict(probe, elapsed, timeout, warn_above) matches Err(failure) ==> failure.text()
            == match probe {
            RedisProbe::Replied(reply) => "dependency unavailable: "@ + (
            "unexpected PING reply: "@ + reply@),
            RedisProbe::Failed(err) => "dependency unavailable: "@ + ("redis probe failed: "@
                + err@),
            RedisProbe::TaskFailed(err) => "health check failed: "@ + ("redis probe task failed: "@
                + err@),
            RedisProbe::TimedOut => "health check timed out after "@ + debug_display(timeout),
        },
{
}

/// What each probe amounts to. A `PONG` is `Healthy` up to the threshold and
/// `Degraded` above it; every other reply and a failed connection make the
/// dependency unavailable, a failed task fails the check, and a missed timeout is
/// one, with the timeout of the check.
pub proof fn law_redis_verdict_of_each_probe(
    probe: RedisProbe,
    elapsed: nat,
    timeout: nat,
    warn_above: nat,
)
    ensures
        ({
            let amounts_to = redis_verdict(probe, elapsed, timeout, warn_above);
            match probe {
                RedisProbe::Replied(reply) => {
                    let pong = reply@ == seq!['P', 'O', 'N', 'G'];
                    &&& amounts_to == Ok::<HealthStatus, Failure>(HealthStatus::Healthy) <==> pong
                        && elapsed <= warn_above
                    &&& amounts_to == Ok::<HealthStatus, Failure>(HealthStatus::Degraded) <==> pong
                        && elapsed > warn_above
                    &&& !pong ==> amounts_to == Err::<HealthStatus, Failure>(
                        Failure::DependencyUnavailable("unexpected PING reply: "@ + reply@),
                    )
                },
                RedisProbe::Failed(err) => amounts_to == Err::<HealthStatus, Failure>(
                    Failure::DependencyUnavailable("redis probe failed: "@ + err@),
                ),
                RedisProbe::TaskFailed(err) => amounts_to == Err::<HealthStatus, Failure>(
                    Failure::CheckFailed("redis probe task failed: "@ + err@),
                ),
                RedisProbe::TimedOut => amounts_to == Err::<HealthStatus, Failure>(
                    Failure::CheckTimedOut(timeout),
                ),
            }
        }),
{
    reveal_strlit("PONG");
    assert("PONG"@ =~= seq!['P', 'O', 'N', 'G']);
}

/// The URLs of the documentation name TCP servers, whatever follows the scheme,
/// and are not foreign.
pub proof fn law_redis_urls_name_tcp_servers(rest: Seq<char>)
    ensures
        has_tcp_scheme("redis://"@ + rest),
        has_tcp_scheme("valkey://"@ + rest),
        !is_foreign("redis://"@ + rest),
        !is_foreign("valkey://"@ + rest),
{
    reveal_strlit("redis");
    reveal_strlit("valkey");
    reveal_strlit("redis://");
    reveal_strlit("valkey://");
    let redis = "redis://"@ + rest;
    let valkey = "valkey://"@ + rest;
    assert(has_scheme(redis, "redis"@));
    assert(has_scheme(valkey, "valkey"@));
    assert(redis[5] == ':');
    assert(valkey[6] == ':');
}

/// A text that begins with a word and a colon is foreign unless the word is one
/// of the schemes, letter for letter in upper or lower case; so is every text
/// without a colon.
pub proof fn law_other_schemes_are_foreign(word: Seq<char>, rest: Seq<char>)
    requires
        forall|i: int| 0 <= i < word.len() ==> ' ' < (#[trigger] word[i]) && word[i] != ':',
    ensures
        ({
            let lower = word.map_values(|ch: char| ascii_lower(ch));
            is_foreign(word + seq![':'] + rest) <==> {
                &&& lower != "redis"@
                &&& lower != "rediss"@
                &&& lower != "valkey"@
                &&& lower != "valkeys"@
                &&& lower != "unix"@
                &&& lower != "redis+unix"@
                &&& lower != "valkey+unix"@
            }
        }),
        is_foreign(word),
{
    let url = word + seq![':'] + rest;
    let lower = word.map_values(|ch: char| ascii_lower(ch));
    assert(url[word.len() as int] == ':');
    assert forall|i: int| 0 <= i < url.len() && (#[trigger] url[i]) <= ' ' implies url.take(
        i,
    ).contains(':') by {
        if i < word.len() {
            assert(url[i] == word[i]);
        } else {
            assert(url.take(i)[word.len() as int] == ':');
        }
    }
    reveal_strlit("redis");
    reveal_strlit("rediss");
    reveal_strlit("valkey");
    reveal_strlit("valkeys");
    reveal_strlit("unix");
    reveal_strlit("redis+unix");
    reveal_strlit("valkey+unix");
    lemma_has_scheme(word, rest, "redis"@);
    lemma_has_scheme(word, rest, "rediss"@);
    lemma_has_scheme(word, rest, "valkey"@);
    lemma_has_scheme(word, rest, "valkeys"@);
    lemma_has_scheme(word, rest, "unix"@);
    lemma_has_scheme(word, rest, "redis+unix"@);
    lemma_has_scheme(word, rest, "valkey+unix"@);
}

proof fn lemma_has_scheme(word: Seq<char>, rest: Seq<char>, scheme: Seq<char>)
    requires
        forall|i: int| 0 <= i < word.len() ==> ' ' < (#[trigger] word[i]) && word[i] != ':',
        !scheme.contains(':'),
    ensures
        has_scheme(word + seq![':'] + rest, scheme) <==> word.map_values(
            |ch: char| ascii_lower(ch),
        ) == scheme,
{
    let url = word + seq![':'] + rest;
    let lower = word.map_values(|ch: char| ascii_lower(ch));
    if has_scheme(url, scheme) {
        if scheme.len() < word.len() {
            assert(url[scheme.len() as int] == word[scheme.len() as int]);
        }
        if word.len() < scheme.len() {
            assert(ascii_lower(url[word.len() as int]) == scheme[word.len() as int]);
            assert(scheme.contains(scheme[word.len() as int]));
        }
        assert forall|i: int| 0 <= i < word.len() implies lower[i] == scheme[i] by {
            assert(url[i] == word[i]);
        }
        assert(lower =~= scheme);
    }
    if lower == scheme {
        assert forall|i: int| 0 <= i < scheme.len() implies ascii_lower(#[trigger] url[i])
            == scheme[i] by {
            assert(lower[i] == scheme[i]);
        }
    }
}

/// What a call of `check` returns for a probe that took `elapsed`, by the check's
/// own threshold and timeout.
pub proof fn law_redis_check_of_each_probe(
    check: RedisCheck,
    probe: RedisProbe,
    elapsed: Duration,
    outcome: Result<HealthStatus, HealthCheckError>,
)
    requires
        call_ensures(RedisCheck::check, (&check, probe, elapsed), outcome),
    ensures
        match probe {
            RedisProbe::Replied(reply) => if reply@ == seq!['P', 'O', 'N', 'G'] {
                outcome matches Ok(status) && status == if elapsed@ <= check.warn_above@ {
                    HealthStatus::Healthy
                } else {
                    HealthStatus::Degraded
                }
            } else {
                outcome matches Err(HealthCheckError::DependencyUnavailable(detail)) && detail@
                    == "unexpected PING reply: "@ + reply@
            },
            RedisProbe::Failed(err) => outcome matches Err(
                HealthCheckError::DependencyUnavailable(detail),
            ) && detail@ == "redis probe failed: "@ + err@,
            RedisProbe::TaskFailed(err) => outcome matches Err(
                HealthCheckError::CheckFailed(detail),
            ) && detail@ == "redis probe task failed: "@ + err@,
            RedisProbe::TimedOut => outcome matches Err(HealthCheckError::CheckTimedOut(after))
                && after@ == check.timeout@,
        },
{
    law_redis_verdict_of_each_probe(probe, elapsed@, check.timeout@, check.warn_above@);
}

} // verus!
