//! Probe outcome classification.
//!
//! A probe run ends in one of three ways: the target answered and the
//! answer decides between healthy and unhealthy; the bounded wait expired,
//! which is an unhealthy verdict and never a crash of the checker; or the
//! transport failed outright, which is a hard [`NetworkError`] — no health
//! verdict could be formed. The surrounding binary performs the network
//! round trip and hands the observed outcome to the classifiers here.

use vstd::prelude::*;

use crate::configuration::{fault_message, Configuration, InvalidConfiguration};
use crate::text::{decimal_digits, push_decimal};

verus! {

/// Why a reachable target was judged unhealthy.
#[derive(Debug, PartialEq, Eq)]
pub enum Reason {
    /// The round trip exceeded the configured timeout, in milliseconds.
    TimedOut(u64),
    /// The target answered with this status code instead of the expected
    /// one; the second field carries the canonical reason phrase.
    UnexpectedStatusCode(u16, String),
    /// The key-value target answered the liveness command with something
    /// other than the canonical reply.
    UnexpectedReply(String),
}

/// The health verdict of one probe run.
#[derive(Debug, PartialEq, Eq)]
pub enum State {
    Healthy,
    Unhealthy(Reason),
}

/// A transport-level failure: the probe could not be completed, so no
/// health verdict was formed. Kept apart from `State` on purpose; the two
/// map to different exit codes.
#[derive(Debug, PartialEq, Eq)]
pub struct NetworkError {
    pub message: String,
}

/// The terminal error of a whole run: an invalid configuration or a hard
/// probe failure, either way exit code 2.
#[derive(Debug, PartialEq, Eq)]
pub struct HeathcheckFailure {
    pub message: String,
}

/// The canonical reason phrase of an HTTP status code, or the empty string
/// where none is assigned; a fixed table keyed by the code alone.
pub uninterp spec fn canonical_reason_of(code: u16) -> Seq<char>;

/// Relies on `http::StatusCode::canonical_reason`: the phrase is a fixed
/// table keyed by the numeric code alone; a code outside 100..=999 or one
/// without a canonical phrase gives the empty string.
#[verifier::external_body]
fn canonical_reason_text(code: u16) -> (r: String)
    ensures
        r@ == canonical_reason_of(code),
{
    let phrase = match http::StatusCode::from_u16(code) {
        Ok(status) => status.canonical_reason().unwrap_or(""),
        Err(_) => "",
    };
    String::from(phrase)
}

/// The message of a hard failure: tagged so that an operator can tell it
/// from a configuration error.
pub open spec fn network_error_message(detail: Seq<char>) -> Seq<char> {
    "network error: "@ + detail
}

fn network_error(detail: &str) -> (r: NetworkError)
    ensures
        r.message@ == network_error_message(detail@),
{
    let mut message = "network error: ".to_owned();
    message.append(detail);
    NetworkError { message }
}

/// What the HTTP round trip came to, as the transport reported it.
pub enum HttpOutcome {
    /// A response arrived, with this status code.
    Response(u16),
    /// No response within the configured timeout.
    TimedOut,
    /// The transport failed in some other way; the text describes it.
    Failed(String),
}

/// The HTTP probe: one request against `localhost` on the configured port
/// and path, judged by the configured status code.
pub struct Http;

impl Http {
    /// Classifies one HTTP probe outcome: the expected status is healthy,
    /// any other status or a timeout is unhealthy, and any other transport
    /// failure is a hard error.
    pub fn classify(&self, configuration: &Configuration, outcome: HttpOutcome) -> (r: Result<
        State,
        NetworkError,
    >)
        ensures
            match outcome {
                HttpOutcome::Response(status) => {
                    if status == configuration@.status_code {
                        r == Ok::<State, NetworkError>(State::Healthy)
                    } else {
                        r matches Ok(State::Unhealthy(Reason::UnexpectedStatusCode(code, reason)))
                            && code == status && reason@ == canonical_reason_of(status)
                    }
                },
                HttpOutcome::TimedOut => r == Ok::<State, NetworkError>(
                    State::Unhealthy(Reason::TimedOut(configuration@.timeout_millis)),
                ),
                HttpOutcome::Failed(detail) => r matches Err(e) && e.message@
                    == network_error_message(detail@),
            },
    {
        match outcome {
            HttpOutcome::Response(status) => {
                if status == configuration.status_code.get() {
                    Ok(State::Healthy)
                } else {
                    let reason = canonical_reason_text(status);
                    Ok(State::Unhealthy(Reason::UnexpectedStatusCode(status, reason)))
                }
            },
            HttpOutcome::TimedOut => Ok(
                State::Unhealthy(Reason::TimedOut(configuration.timeout.millis())),
            ),
            HttpOutcome::Failed(detail) => Err(network_error(detail.as_str())),
        }
    }
}

/// What the key-value round trip came to: connection establishment first,
/// then the liveness command, each bounded by the configured timeout.
pub enum RedisOutcome {
    /// Connecting took longer than the configured timeout.
    ConnectTimedOut,
    /// Connecting failed; the text describes it.
    ConnectFailed(String),
    /// The liveness command took longer than the configured timeout.
    PingTimedOut,
    /// The liveness command answered with this reply.
    PingReply(String),
    /// The liveness command failed; the text describes it.
    PingFailed(String),
}

/// The Redis-style probe: one liveness command against `localhost` on the
/// configured port, judged by the canonical `PONG` reply.
pub struct Redis;

impl Redis {
    /// Classifies one key-value probe outcome: the canonical reply is
    /// healthy, any other reply or a timeout is unhealthy, and any
    /// connection or command failure is a hard error.
    pub fn classify(&self, configuration: &Configuration, outcome: RedisOutcome) -> (r: Result<
        State,
        NetworkError,
    >)
        ensures
            match outcome {
                RedisOutcome::ConnectTimedOut | RedisOutcome::PingTimedOut => r == Ok::<
                    State,
                    NetworkError,
                >(State::Unhealthy(Reason::TimedOut(configuration@.timeout_millis))),
                RedisOutcome::PingReply(reply) => {
                    if reply@ == "PONG"@ {
                        r == Ok::<State, NetworkError>(State::Healthy)
                    } else {
                        r matches Ok(State::Unhealthy(Reason::UnexpectedReply(m))) && m@
                            == "unexpected response '"@ + reply@ + "'"@
                    }
                },
                RedisOutcome::ConnectFailed(detail) | RedisOutcome::PingFailed(detail) => r matches
                    Err(e) && e.message@ == network_error_message(detail@),
            },
    {
        match outcome {
            RedisOutcome::ConnectTimedOut | RedisOutcome::PingTimedOut => Ok(
                State::Unhealthy(Reason::TimedOut(configuration.timeout.millis())),
            ),
            RedisOutcome::PingReply(reply) => {
                if crate::text::str_eq(reply.as_str(), "PONG") {
                    Ok(State::Healthy)
                } else {
                    let mut m = "unexpected response '".to_owned();
                    m.append(reply.as_str());
                    m.append("'");
                    proof {
                        assert(m@ =~= "unexpected response '"@ + reply@ + "'"@);
                    }
                    Ok(State::Unhealthy(Reason::UnexpectedReply(m)))
                }
            },
            RedisOutcome::ConnectFailed(detail) | RedisOutcome::PingFailed(detail) => Err(
                network_error(detail.as_str()),
            ),
        }
    }
}

/// The operator-facing description of a health state.
pub open spec fn state_message(s: State) -> Seq<char> {
    match s {
        State::Healthy => "healthy"@,
        State::Unhealthy(Reason::TimedOut(ms)) => "unhealthy: timed out after "@ + decimal_digits(
            ms as nat,
        ) + "ms"@,
        State::Unhealthy(Reason::UnexpectedStatusCode(code, text)) => "unhealthy: status code "@
            + decimal_digits(code as nat) + " "@ + text@,
        State::Unhealthy(Reason::UnexpectedReply(reply)) => "unhealthy: "@ + reply@,
    }
}

impl State {
    /// Renders the verdict for the operator.
    pub fn message(&self) -> (r: String)
        ensures
            r@ == state_message(*self),
    {
        match self {
            State::Healthy => "healthy".to_owned(),
            State::Unhealthy(Reason::TimedOut(ms)) => {
                let mut out = "unhealthy: timed out after ".to_owned();
                push_decimal(&mut out, *ms);
                out.append("ms");
                proof {
                    assert(out@ =~= state_message(*self));
                }
                out
            },
            State::Unhealthy(Reason::UnexpectedStatusCode(code, text)) => {
                let mut out = "unhealthy: status code ".to_owned();
                push_decimal(&mut out, *code as u64);
                out.append(" ");
                out.append(text.as_str());
                proof {
                    assert(out@ =~= state_message(*self));
                }
                out
            },
            State::Unhealthy(Reason::UnexpectedReply(reply)) => {
                let mut out = "unhealthy: ".to_owned();
                out.append(reply.as_str());
                proof {
                    assert(out@ =~= state_message(*self));
                }
                out
            },
        }
    }
}

impl HeathcheckFailure {
    /// The terminal error of a run whose configuration could not be
    /// resolved; it carries the configuration error's own message.
    pub fn from_configuration_error(error: &InvalidConfiguration) -> (r: Self)
        ensures
            r.message@ == fault_message(error@),
    {
        HeathcheckFailure { message: error.message() }
    }

    /// The terminal error of a run whose probe failed hard; it carries the
    /// network error's message unchanged.
    pub fn from_network_error(error: NetworkError) -> (r: Self)
        ensures
            r.message == error.message,
    {
        HeathcheckFailure { message: error.message }
    }
}

} // verus!
