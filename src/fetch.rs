use vstd::prelude::*;
use crate::error::ApiError;
use crate::wei::Wei;

verus! {

/// Where one balance fetch stands: each fetch opens its own connection and
/// makes a single attempt, with no retry.
#[derive(Clone, Copy, Debug, PartialEq, Eq, Structural)]
pub enum FetchState {
    /// Waiting for the configured endpoint URL.
    Start,
    /// Waiting for the connection to the endpoint to open.
    Connecting,
    /// Waiting for the node's answer to the balance query.
    Querying,
    /// The fetch is over.
    Finished,
}

/// What the outside world reports to a fetch.
#[derive(Debug, PartialEq, Eq)]
pub enum FetchEvent {
    /// The configured endpoint URL, if any.
    Endpoint(Option<String>),
    /// Whether the connection opened.
    Connected(bool),
    /// The balance the node gave, or `None` if the call failed.
    Answered(Option<Wei>),
    /// The time allotted to the fetch ran out.
    TimedOut,
}

/// What a fetch asks of the outside world next.
#[derive(Debug, PartialEq, Eq)]
pub enum FetchAction {
    /// Open a connection to this URL.
    Connect(String),
    /// Ask the node for the account's balance at the latest block.
    QueryBalance,
    /// Stop, with this result.
    Finish(Result<Wei, ApiError>),
}

/// Whether `e` is an event that a fetch in state `s` waits for.
pub open spec fn spec_accepts(s: FetchState, e: FetchEvent) -> bool {
    match e {
        FetchEvent::Endpoint(_) => s == FetchState::Start,
        FetchEvent::Connected(_) => s == FetchState::Connecting,
        FetchEvent::Answered(_) => s == FetchState::Querying,
        FetchEvent::TimedOut => s != FetchState::Finished,
    }
}

/// The events left at most before a fetch in state `s` is over.
pub open spec fn remaining(s: FetchState) -> nat {
    match s {
        FetchState::Start => 3,
        FetchState::Connecting => 2,
        FetchState::Querying => 1,
        FetchState::Finished => 0,
    }
}

/// Whether `e` is an event that a fetch in state `s` waits for.
pub fn accepts(s: FetchState, e: &FetchEvent) -> (r: bool)
    ensures
        r == spec_accepts(s, *e),
{
    match e {
        FetchEvent::Endpoint(_) => s == FetchState::Start,
        FetchEvent::Connected(_) => s == FetchState::Connecting,
        FetchEvent::Answered(_) => s == FetchState::Querying,
        FetchEvent::TimedOut => s != FetchState::Finished,
    }
}

/// The state and action that follow event `e` in state `s`.
pub open spec fn spec_step(s: FetchState, e: FetchEvent) -> (FetchState, FetchAction) {
    match e {
        FetchEvent::Endpoint(None) => (FetchState::Finished, FetchAction::Finish(Err(ApiError::Configuration))),
        FetchEvent::Endpoint(Some(url)) => (FetchState::Connecting, FetchAction::Connect(url)),
        FetchEvent::Connected(true) => (FetchState::Querying, FetchAction::QueryBalance),
        FetchEvent::Connected(false) => (FetchState::Finished, FetchAction::Finish(Err(ApiError::Connection))),
        FetchEvent::Answered(Some(w)) => (FetchState::Finished, FetchAction::Finish(Ok(w))),
        FetchEvent::Answered(None) => (FetchState::Finished, FetchAction::Finish(Err(ApiError::Rpc))),
        FetchEvent::TimedOut => (FetchState::Finished, FetchAction::Finish(Err(ApiError::Timeout))),
    }
}

/// The state and action that follow event `e` in state `s`: a missing endpoint,
/// a refused connection, a failed call or a timeout ends the fetch at once.
pub fn step(s: FetchState, e: FetchEvent) -> (r: (FetchState, FetchAction))
    requires
        spec_accepts(s, e),
    ensures
        r == spec_step(s, e),
{
    match e {
        FetchEvent::Endpoint(None) => (FetchState::Finished, FetchAction::Finish(Err(ApiError::Configuration))),
        FetchEvent::Endpoint(Some(url)) => (FetchState::Connecting, FetchAction::Connect(url)),
        FetchEvent::Connected(true) => (FetchState::Querying, FetchAction::QueryBalance),
        FetchEvent::Connected(false) => (FetchState::Finished, FetchAction::Finish(Err(ApiError::Connection))),
        FetchEvent::Answered(Some(w)) => (FetchState::Finished, FetchAction::Finish(Ok(w))),
        FetchEvent::Answered(None) => (FetchState::Finished, FetchAction::Finish(Err(ApiError::Rpc))),
        FetchEvent::TimedOut => (FetchState::Finished, FetchAction::Finish(Err(ApiError::Timeout))),
    }
}

/// A fetch is over after at most three events: each step lowers the count of
/// events left, and the fetch is finished exactly when it stops with a result.
pub proof fn lemma_fetch_terminates(s: FetchState, e: FetchEvent)
    requires
        spec_accepts(s, e),
    ensures
        remaining(spec_step(s, e).0) < remaining(s),
        remaining(s) <= 3,
        spec_step(s, e).0 == FetchState::Finished <==> spec_step(s, e).1 is Finish,
{
}

/// Every way a fetch can fail is reported with a server-side status (5xx),
/// never as the client's fault.
pub proof fn lemma_fetch_failures_are_server_errors(s: FetchState, e: FetchEvent)
    requires
        spec_accepts(s, e),
    ensures
        spec_step(s, e).1 matches FetchAction::Finish(Err(err)) ==> 500 <= err.spec_status() < 600,
{
}

/// A fetch that finishes well carries the amount that the node gave, and only
/// an answer from the node finishes it well.
pub proof fn lemma_fetch_success(s: FetchState, e: FetchEvent)
    requires
        spec_accepts(s, e),
    ensures
        spec_step(s, e).1 matches FetchAction::Finish(Ok(w)) ==> e == FetchEvent::Answered(Some(w)),
{
}

} // verus!
