use vstd::prelude::*;

use crate::error::{ErrorDetail, ErrorKind};
use crate::json::parse_user_doc;
use crate::lifecycle::RequestLifecycle;
use crate::rest::User;

verus! {

/// What the page logic reads of an HTTP response: its status code. The
/// rest of the response handle never enters a decision.
#[derive(Clone, Copy, Debug, PartialEq, Eq, Structural)]
pub struct ResponseSummary {
    pub status: u16,
}

impl ResponseSummary {
    /// Whether the status code is in the success range.
    pub open spec fn spec_ok(&self) -> bool {
        200 <= self.status < 300
    }

    /// Whether the status code is in the success range.
    pub fn ok(&self) -> (r: bool)
        ensures
            r == self.spec_ok(),
    {
        200 <= self.status && self.status < 300
    }
}

/// How one dispatched text request came back: a body arrived, the
/// transport failed before a response, or a response arrived whose body
/// could not be read.
pub enum TextOutcome {
    Received(String),
    TransportFailed(String),
    BodyUnreadable(String),
}

/// The terminal state a text request settles into.
pub open spec fn spec_settle_text(outcome: TextOutcome) -> RequestLifecycle<String> {
    match outcome {
        TextOutcome::Received(body) => RequestLifecycle::Succeeded(body),
        TextOutcome::TransportFailed(m) => RequestLifecycle::Failed(
            ErrorDetail { kind: ErrorKind::Network, message: m },
        ),
        TextOutcome::BodyUnreadable(m) => RequestLifecycle::Failed(
            ErrorDetail { kind: ErrorKind::Decode, message: m },
        ),
    }
}

/// Settle a text request: the body as it arrived on success, a network
/// or decode failure otherwise, never a state still in flight.
pub fn settle_text(outcome: TextOutcome) -> (r: RequestLifecycle<String>)
    ensures
        r == spec_settle_text(outcome),
{
    match outcome {
        TextOutcome::Received(body) => RequestLifecycle::Succeeded(body),
        TextOutcome::TransportFailed(m) => RequestLifecycle::Failed(ErrorDetail::network(m)),
        TextOutcome::BodyUnreadable(m) => RequestLifecycle::Failed(ErrorDetail::decode(m)),
    }
}

/// Settle a structured user request: a decoded user exactly when a body
/// arrived and is a well-formed user document; a network failure when
/// the transport failed; a decode failure otherwise. Never a state
/// still in flight.
pub fn settle_user(outcome: TextOutcome) -> (r: RequestLifecycle<User>)
    ensures
        r is Succeeded || r is Failed,
        outcome matches TextOutcome::TransportFailed(m) ==> (r matches RequestLifecycle::Failed(e)
            && e.kind == ErrorKind::Network && e.message == m),
        outcome matches TextOutcome::BodyUnreadable(m) ==> (r matches RequestLifecycle::Failed(e)
            && e.kind == ErrorKind::Decode && e.message == m),
        outcome matches TextOutcome::Received(body) ==> (match parse_user_doc(body@) {
            Some(doc) => r matches RequestLifecycle::Succeeded(u) && u.name@ == doc.0 && u.color
                == doc.1,
            None => r matches RequestLifecycle::Failed(e) && e.kind == ErrorKind::Decode,
        }),
{
    match outcome {
        TextOutcome::Received(body) => match crate::json::decode_user_text(body.as_str()) {
            Some((name, color)) => RequestLifecycle::Succeeded(User { name, color }),
            None => RequestLifecycle::Failed(
                ErrorDetail::decode(String::from_str("response body is not a user document")),
            ),
        },
        TextOutcome::TransportFailed(m) => RequestLifecycle::Failed(ErrorDetail::network(m)),
        TextOutcome::BodyUnreadable(m) => RequestLifecycle::Failed(ErrorDetail::decode(m)),
    }
}

/// The terminal state a status-bearing request (create or delete)
/// settles into: the status is kept as a success whatever its value.
pub open spec fn spec_settle_response(outcome: Result<u16, String>) -> RequestLifecycle<
    ResponseSummary,
> {
    match outcome {
        Ok(status) => RequestLifecycle::Succeeded(ResponseSummary { status }),
        Err(m) => RequestLifecycle::Failed(ErrorDetail { kind: ErrorKind::Network, message: m }),
    }
}

/// Settle a request whose caller only reads the response status. A
/// completed request is a success whatever the status code says: what a
/// non-success status means is the caller's concern.
pub fn settle_response(outcome: Result<u16, String>) -> (r: RequestLifecycle<ResponseSummary>)
    ensures
        r == spec_settle_response(outcome),
{
    match outcome {
        Ok(status) => RequestLifecycle::Succeeded(ResponseSummary { status }),
        Err(m) => RequestLifecycle::Failed(ErrorDetail::network(m)),
    }
}

/// However a dispatched request comes back, settling it reaches a
/// terminal state: a settlement never leaves a lifecycle in flight, and
/// a transport failure settles as a network error rather than hanging.
pub proof fn lemma_settlement_terminal(t: TextOutcome, p: Result<u16, String>)
    ensures
        spec_settle_text(t) is Succeeded || spec_settle_text(t) is Failed,
        spec_settle_response(p) is Succeeded || spec_settle_response(p) is Failed,
        t matches TextOutcome::TransportFailed(m) ==> (spec_settle_text(t)
            matches RequestLifecycle::Failed(e) && e.kind == ErrorKind::Network && e.message == m),
        p matches Err(m) ==> (spec_settle_response(p) matches RequestLifecycle::Failed(e) && e.kind
            == ErrorKind::Network && e.message == m),
{
}

/// A completed response settles as a success whatever its status code:
/// treating a non-success status (say, 404 on a delete) as "no such
/// resource" is a reading the caller makes afterwards.
pub proof fn lemma_completed_response_succeeds(status: u16)
    ensures
        spec_settle_response(Ok(status)) == RequestLifecycle::<ResponseSummary>::Succeeded(
            ResponseSummary { status },
        ),
{
}

} // verus!
