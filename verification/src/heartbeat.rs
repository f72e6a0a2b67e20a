//! The heartbeat exchange: the message on the wire and how one attempt is judged.

use vstd::prelude::*;
use vstd::string::StringExecFns;

verus! {

/// The liveness message that a client posts to the server.
#[derive(Debug, Clone)]
pub struct HeartbeatMessage {
    /// Time of sending, as an RFC 3339 string.
    pub timestamp: String,
    /// Name of the sending host.
    pub hostname: String,
}

/// Declares `serde_json::Error`, the serializer's error, as an opaque type.
#[verifier::external_type_specification]
#[verifier::external_body]
pub struct ExJsonError(serde_json::Error);

/// A text as a JSON string: in double quotes, with what JSON asks to be
/// escaped written as escapes. `None` where the serializer refuses the text.
pub uninterp spec fn json_quoted(text: Seq<char>) -> Option<Seq<char>>;

/// Calls `serde_json::to_string` on a string slice, which writes the slice
/// as one JSON string. The contract only names the result.
#[verifier::external_body]
fn quote_json(text: &str) -> (quoted: Result<String, serde_json::Error>)
    ensures
        quoted is Ok <==> json_quoted(text@) is Some,
        quoted is Ok ==> quoted->Ok_0@ == json_quoted(text@)->Some_0,
{
    serde_json::to_string(text)
}

/// The body of a heartbeat on the wire: a JSON object of the two fields,
/// given each field's value as a JSON string.
pub open spec fn wire_body(hostname_json: Seq<char>, timestamp_json: Seq<char>) -> Seq<char> {
    "{\"hostname\":"@ + hostname_json + ",\"timestamp\":"@ + timestamp_json + "}"@
}

/// Frames the body of a heartbeat from its two values, each one already
/// written as a JSON string.
pub fn frame_heartbeat(hostname_json: &str, timestamp_json: &str) -> (body: String)
    ensures
        body@ == wire_body(hostname_json@, timestamp_json@),
{
    let mut body = String::from_str("{\"hostname\":");
    body.append(hostname_json);
    body.append(",\"timestamp\":");
    body.append(timestamp_json);
    body.append("}");
    body
}

impl HeartbeatMessage {
    /// The body that this message is posted as, or `None` where one of its
    /// values cannot be written as a JSON string.
    pub fn to_json(&self) -> (body: Option<String>)
        ensures
            body is Some <==> json_quoted(self.hostname@) is Some && json_quoted(
                self.timestamp@,
            ) is Some,
            body is Some ==> body->Some_0@ == wire_body(
                json_quoted(self.hostname@)->Some_0,
                json_quoted(self.timestamp@)->Some_0,
            ),
    {
        let hostname_json = match quote_json(self.hostname.as_str()) {
            Ok(quoted) => quoted,
            Err(_) => {
                return None;
            },
        };
        let timestamp_json = match quote_json(self.timestamp.as_str()) {
            Ok(quoted) => quoted,
            Err(_) => {
                return None;
            },
        };
        Some(frame_heartbeat(hostname_json.as_str(), timestamp_json.as_str()))
    }
}

/// How one heartbeat attempt ended.
#[derive(Debug, Clone, Copy, PartialEq, Eq, Structural)]
pub enum HeartbeatOutcome {
    /// The server answered with this HTTP status code.
    Responded { status: u16 },
    /// The request failed below HTTP.
    TransportError,
    /// No answer came within the outer guard.
    TimedOut,
}

/// HTTP success: the status codes 200 to 299.
pub open spec fn is_success_status(status: u16) -> bool {
    200 <= status < 300
}

/// An attempt confirms the device exactly when the server answered with a
/// success status. A refusal, a transport error and a timeout all count as
/// "not confirmed".
pub open spec fn confirms_device(outcome: HeartbeatOutcome) -> bool {
    match outcome {
        HeartbeatOutcome::Responded { status } => is_success_status(status),
        HeartbeatOutcome::TransportError => false,
        HeartbeatOutcome::TimedOut => false,
    }
}

/// Judges one heartbeat attempt. Never an error: every failure is reported as `false`.
pub fn heartbeat_confirmed(outcome: HeartbeatOutcome) -> (confirmed: bool)
    ensures
        confirmed == confirms_device(outcome),
{
    match outcome {
        HeartbeatOutcome::Responded { status } => 200 <= status && status < 300,
        HeartbeatOutcome::TransportError => false,
        HeartbeatOutcome::TimedOut => false,
    }
}

/// The two nested time limits of one heartbeat attempt, in seconds.
#[derive(Debug, Clone, Copy, PartialEq, Eq, Structural)]
pub struct HeartbeatGuards {
    /// Limit handed to the HTTP request itself.
    pub request_secs: u64,
    /// Limit of the guard around the request.
    pub outer_secs: u64,
}

/// The guards for a configured heartbeat timeout: the request gets the
/// timeout itself, the guard around it one second more (capped at the largest
/// representable number of seconds).
pub open spec fn guards_for(timeout_secs: u64) -> HeartbeatGuards {
    HeartbeatGuards {
        request_secs: timeout_secs,
        outer_secs: if timeout_secs < u64::MAX {
            (timeout_secs + 1) as u64
        } else {
            u64::MAX
        },
    }
}

/// Computes the two time limits of a heartbeat attempt.
pub fn heartbeat_guards(timeout_secs: u64) -> (guards: HeartbeatGuards)
    ensures
        guards == guards_for(timeout_secs),
        guards.request_secs <= guards.outer_secs,
{
    let outer_secs: u64 = if timeout_secs < u64::MAX {
        timeout_secs + 1
    } else {
        u64::MAX
    };
    HeartbeatGuards { request_secs: timeout_secs, outer_secs }
}

} // verus!
