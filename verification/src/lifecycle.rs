use vstd::prelude::*;

use crate::error::ErrorDetail;

verus! {

/// The life of one asynchronous network operation: nothing issued yet,
/// a request outstanding, or a settlement carrying either the decoded
/// payload or the error that ended the request.
///
/// The four states are mutually exclusive by construction; a consumer
/// dispatches over them with an exhaustive `match`, so a future fifth
/// state cannot be silently ignored.
pub enum RequestLifecycle<T> {
    /// No request issued yet. The initial state.
    Idle,
    /// A request was issued and has not settled.
    InFlight,
    /// The request settled with a decoded payload.
    Succeeded(T),
    /// The request settled with a transport or decode error.
    Failed(ErrorDetail),
}

/// The state a lifecycle moves to when a new request is issued. It does
/// not depend on the prior state: whatever was held before is dropped.
pub open spec fn spec_start<T>(prior: RequestLifecycle<T>) -> RequestLifecycle<T> {
    RequestLifecycle::InFlight
}

impl<T> RequestLifecycle<T> {
    /// The initial state: no request issued yet.
    pub fn idle() -> (r: Self)
        ensures
            r is Idle,
    {
        RequestLifecycle::Idle
    }

    /// Begin a new request: a pure transition into the in-flight state,
    /// discarding whatever payload or error an earlier settlement left.
    pub fn start(self) -> (r: Self)
        ensures
            r == spec_start(self),
    {
        RequestLifecycle::InFlight
    }

    /// Settle with a decoded payload.
    pub fn succeed(value: T) -> (r: Self)
        ensures
            r == RequestLifecycle::Succeeded(value),
    {
        RequestLifecycle::Succeeded(value)
    }

    /// Settle with a transport or decode error.
    pub fn fail(error: ErrorDetail) -> (r: Self)
        ensures
            r == RequestLifecycle::<T>::Failed(error),
    {
        RequestLifecycle::Failed(error)
    }

    /// Whether the request has reached a terminal state.
    pub fn is_settled(&self) -> (r: bool)
        ensures
            r == (self is Succeeded || self is Failed),
    {
        match self {
            RequestLifecycle::Succeeded(_) => true,
            RequestLifecycle::Failed(_) => true,
            _ => false,
        }
    }
}

/// A lifecycle value is in exactly one of the four states: the state
/// indicators sum to one, so no value is in an intermediate or partial
/// state.
pub proof fn lemma_exactly_one_state<T>(l: RequestLifecycle<T>)
    ensures
        (if l is Idle { 1int } else { 0int }) + (if l is InFlight { 1int } else { 0int })
            + (if l is Succeeded { 1int } else { 0int }) + (if l is Failed { 1int } else { 0int })
            == 1,
{
}

/// Starting a request discards any previously held payload or error: the
/// state after `start` is the bare in-flight state, holding nothing, and
/// it is the same state whatever the prior state was.
pub proof fn lemma_start_discards_previous<T>(prior: RequestLifecycle<T>, other: RequestLifecycle<T>)
    ensures
        spec_start(prior) is InFlight,
        !(spec_start(prior) is Succeeded),
        !(spec_start(prior) is Failed),
        spec_start(prior) == spec_start(other),
{
}

} // verus!
