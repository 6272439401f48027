use crate::message::Message;
use vstd::prelude::*;

verus! {

pub const OK: u16 = 200;

pub const UNAUTHORIZED: u16 = 401;

pub const EXPECTATION_FAILED: u16 = 417;

/// Whether `code` is a status code that HTTP can carry: three decimal digits.
pub open spec fn valid_status(code: u16) -> bool {
    100 <= code < 1000
}

/// Relies on http's `StatusCode::from_u16`: it accepts exactly the codes
/// from 100 to 999 and keeps the number it was given.
#[verifier::external_body]
fn status_from_u16(code: u16) -> (r: Option<u16>)
    ensures
        valid_status(code) ==> r == Some(code),
        !valid_status(code) ==> r.is_none(),
{
    match axum::http::StatusCode::from_u16(code) {
        Ok(status) => Some(status.as_u16()),
        Err(_) => None,
    }
}

/// An answer to a request: its status code and its body.
#[derive(Debug)]
pub struct Reply {
    pub status: u16,
    pub body: String,
}

/// The liveness route: always 200 with the body `PONG!`.
pub fn get_pong() -> (r: Reply)
    ensures
        r.status == OK,
        r.body@ == "PONG!"@,
{
    Reply { status: OK, body: String::from_str("PONG!") }
}

/// What came back from the outbound call to the dependent service.
#[derive(Debug)]
pub enum ExternalOutcome {
    /// The service could not be reached.
    Unreachable,
    /// The service answered; the body decoded to a message, or did not.
    Answered(Option<Message>),
}

/// The message that stands in for a body that did not decode.
pub open spec fn undecodable_text() -> Seq<char> {
    "Failed to parse external response"@
}

/// The text answered when the dependent service could not be reached.
pub open spec fn unreachable_text() -> Seq<char> {
    "Failed to reach external service"@
}

/// The status answered for a message code: its low 16 bits when they form a
/// valid status, else 417.
pub open spec fn status_for_code(code: i32) -> u16 {
    if valid_status(code as u16) {
        code as u16
    } else {
        EXPECTATION_FAILED
    }
}

/// The reply to a message that the dependent service sent: its code as the
/// status, and its text followed by ` !!`.
pub open spec fn relayed(code: i32, text: Seq<char>) -> (u16, Seq<char>) {
    (status_for_code(code), text + " !!"@)
}

/// Turns the outcome of the outbound call into the reply to the client.
/// An unreachable service gives 417; a body that does not decode is read as
/// the message (400, "Failed to parse external response").
pub fn call_external_service(outcome: ExternalOutcome) -> (r: Reply)
    ensures
        match outcome {
            ExternalOutcome::Unreachable => r.status == EXPECTATION_FAILED && r.body@
                == unreachable_text(),
            ExternalOutcome::Answered(Some(m)) => (r.status, r.body@) == relayed(
                m.code,
                m.message_text@,
            ),
            ExternalOutcome::Answered(None) => (r.status, r.body@) == relayed(
                400,
                undecodable_text(),
            ),
        },
{
    match outcome {
        ExternalOutcome::Unreachable => Reply {
            status: EXPECTATION_FAILED,
            body: String::from_str("Failed to reach external service"),
        },
        ExternalOutcome::Answered(decoded) => {
            let m = match decoded {
                Some(m) => m,
                None => Message {
                    code: 400,
                    message_text: String::from_str("Failed to parse external response"),
                },
            };
            let status = match status_from_u16(m.code as u16) {
                Some(s) => s,
                None => EXPECTATION_FAILED,
            };
            Reply { status, body: m.message_text.concat(" !!") }
        },
    }
}

/// The text of the reply that grants access.
pub open spec fn granted_text() -> Seq<char> {
    "Access Granted"@
}

/// The text of the reply that refuses access.
pub open spec fn refused_text() -> Seq<char> {
    "Unauthorized"@
}

/// The header-gated route: 200 with `Access Granted` when the request carries
/// the shared secret in its header, 401 when the header is missing or holds
/// anything else.
pub fn check_access(presented: Option<&String>, secret: &String) -> (r: Reply)
    ensures
        presented.is_some() && presented.unwrap()@ == secret@ ==> r.status == OK && r.body@
            == granted_text(),
        !(presented.is_some() && presented.unwrap()@ == secret@) ==> r.status == UNAUTHORIZED
            && r.body@ == refused_text(),
{
    let granted = match presented {
        Some(value) => *value == *secret,
        None => false,
    };
    if granted {
        Reply { status: OK, body: String::from_str("Access Granted") }
    } else {
        Reply { status: UNAUTHORIZED, body: String::from_str("Unauthorized") }
    }
}

} // verus!
