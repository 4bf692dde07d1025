//! Per-target probing: classifying one transport exchange into a
//! `ProbeResult`. The network work itself (connect, write, bounded read)
//! happens outside the library; it reports back one `TransportEvent` per
//! target, and everything that decides up/down, picks the error kind and
//! fixes the latency is specified and proved here. A probe never panics:
//! every failure path terminates in a `ProbeResult`.

use vstd::prelude::*;

use crate::text::{contains_seq, str_contains};

verus! {

/// Why a target was classified down. Kept as a tagged variant so the
/// taxonomy stays inspectable; it is only formatted to text at render time.
#[derive(Clone, Debug, PartialEq, Eq)]
pub enum ProbeError {
    /// Address resolution or connection establishment failed or timed out;
    /// `detail` carries the transport's description of the failure.
    ConnectFailure { detail: String },
    /// The request could not be sent after a successful connection.
    WriteFailure,
    /// Zero bytes were read, or the read timed out.
    NoResponse,
    /// A recognizable status line was read but its code is not accepted.
    UnacceptedStatus,
    /// No recognizable status-line token was found in the bytes read.
    MalformedResponse,
}

/// The outcome of one target's transport exchange, as observed by whatever
/// performs the connect/write/read cycle. `Response` carries the first
/// segment read (decoded to text) and the elapsed milliseconds at the moment
/// that read returned.
#[derive(Clone, Debug, PartialEq, Eq)]
pub enum TransportEvent {
    ConnectFailed { detail: String },
    WriteFailed,
    NoData,
    Response { body: String, elapsed_ms: u64 },
}

/// One target's verdict. `latency_ms` is meaningful only when
/// `reachable` is true, and is zero otherwise by convention.
#[derive(Clone, Debug, PartialEq, Eq)]
pub struct ProbeResult {
    pub target_name: String,
    pub reachable: bool,
    pub latency_ms: u64,
    pub error: Option<ProbeError>,
}

/// A response body counts as "up" exactly when it holds the status-line
/// token and one of the accepted status codes (200, 301, 302).
pub open spec fn accepted_response(body: Seq<char>) -> bool {
    &&& contains_seq(body, "HTTP/1."@)
    &&& {
        ||| contains_seq(body, " 200 "@)
        ||| contains_seq(body, " 301 "@)
        ||| contains_seq(body, " 302 "@)
    }
}

/// Classification of a non-empty response body: `None` when accepted,
/// otherwise the reason it is down. A body without the status-line token is
/// malformed; one with the token but no accepted code has an unaccepted
/// status.
pub open spec fn spec_classify(body: Seq<char>) -> Option<ProbeError> {
    if !contains_seq(body, "HTTP/1."@) {
        Some(ProbeError::MalformedResponse)
    } else if accepted_response(body) {
        None
    } else {
        Some(ProbeError::UnacceptedStatus)
    }
}

/// Whether a transport event makes its target reachable.
pub open spec fn event_up(ev: TransportEvent) -> bool {
    match ev {
        TransportEvent::Response { body, .. } => accepted_response(body@),
        _ => false,
    }
}

/// The latency recorded for an event: the elapsed time of an accepted
/// response, zero for every down verdict.
pub open spec fn event_latency(ev: TransportEvent) -> u64 {
    match ev {
        TransportEvent::Response { body, elapsed_ms } => if accepted_response(body@) {
            elapsed_ms
        } else {
            0
        },
        _ => 0,
    }
}

/// The error recorded for an event, `None` exactly when the target is up.
pub open spec fn event_error(ev: TransportEvent) -> Option<ProbeError> {
    match ev {
        TransportEvent::ConnectFailed { detail } => Some(
            ProbeError::ConnectFailure { detail },
        ),
        TransportEvent::WriteFailed => Some(ProbeError::WriteFailure),
        TransportEvent::NoData => Some(ProbeError::NoResponse),
        TransportEvent::Response { body, .. } => spec_classify(body@),
    }
}

/// `r` is the probe result that target `name` gets for event `ev`.
pub open spec fn probe_result_for(r: ProbeResult, name: Seq<char>, ev: TransportEvent) -> bool {
    &&& r.target_name@ == name
    &&& r.reachable == event_up(ev)
    &&& r.latency_ms == event_latency(ev)
    &&& r.error == event_error(ev)
}

/// Classifies a response body, exactly as `spec_classify` says.
pub fn classify_response(body: &str) -> (c: Option<ProbeError>)
    ensures
        c == spec_classify(body@),
{
    if !str_contains(body, "HTTP/1.") {
        Some(ProbeError::MalformedResponse)
    } else if str_contains(body, " 200 ") || str_contains(body, " 301 ") || str_contains(
        body,
        " 302 ",
    ) {
        None
    } else {
        Some(ProbeError::UnacceptedStatus)
    }
}

/// Turns one target's transport event into its probe result. Total: every
/// event, failure or success, yields a result, so one target's failure can
/// never escape as a panic or abort.
pub fn probe_outcome(name: &str, event: &TransportEvent) -> (r: ProbeResult)
    ensures
        probe_result_for(r, name@, *event),
{
    match event {
        TransportEvent::ConnectFailed { detail } => ProbeResult {
            target_name: name.to_owned(),
            reachable: false,
            latency_ms: 0,
            error: Some(ProbeError::ConnectFailure { detail: detail.clone() }),
        },
        TransportEvent::WriteFailed => ProbeResult {
            target_name: name.to_owned(),
            reachable: false,
            latency_ms: 0,
            error: Some(ProbeError::WriteFailure),
        },
        TransportEvent::NoData => ProbeResult {
            target_name: name.to_owned(),
            reachable: false,
            latency_ms: 0,
            error: Some(ProbeError::NoResponse),
        },
        TransportEvent::Response { body, elapsed_ms } => {
            match classify_response(body.as_str()) {
                None => ProbeResult {
                    target_name: name.to_owned(),
                    reachable: true,
                    latency_ms: *elapsed_ms,
                    error: None,
                },
                Some(e) => ProbeResult {
                    target_name: name.to_owned(),
                    reachable: false,
                    latency_ms: 0,
                    error: Some(e),
                },
            }
        },
    }
}

/// A response whose body holds the status-line token and the code 200 makes
/// its target reachable, with no error recorded.
pub proof fn lemma_accepted_code_reachable(ev: TransportEvent)
    requires
        ev matches TransportEvent::Response { body, .. } && contains_seq(body@, "HTTP/1."@)
            && contains_seq(body@, " 200 "@),
    ensures
        event_up(ev),
        event_error(ev) is None,
{
}

/// A response with the status-line token but none of the accepted codes is
/// classified down with `UnacceptedStatus` — a verdict distinct from every
/// connection-level failure, even though both render as "down".
pub proof fn lemma_unaccepted_status_down(ev: TransportEvent)
    requires
        ev matches TransportEvent::Response { body, .. } && contains_seq(body@, "HTTP/1."@)
            && !contains_seq(body@, " 200 "@) && !contains_seq(body@, " 301 "@) && !contains_seq(
            body@,
            " 302 "@,
        ),
    ensures
        !event_up(ev),
        event_latency(ev) == 0,
        event_error(ev) == Some(ProbeError::UnacceptedStatus),
        !(event_error(ev) matches Some(ProbeError::ConnectFailure { .. })),
{
}

} // verus!
