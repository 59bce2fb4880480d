//! The web relay endpoint's decision core: a state machine from request
//! receipt through token check to fetch completion.  The surrounding
//! program performs the actions — answering the caller, starting the
//! remote fetch — and feeds the outcomes back as events.

use vstd::prelude::*;

verus! {

/// Where one relayed request stands.
#[derive(Clone, Copy, PartialEq, Eq, Structural, Debug)]
pub enum RelayState {
    /// No request has been handled yet.
    Idle,
    /// The token was denied; terminal.
    Rejected,
    /// The token was allowed and the remote fetch is in flight.
    Fetching,
    /// The fetched content was relayed to the caller; terminal.
    Delivered,
    /// The remote resource could not be retrieved; terminal.
    FetchFailed,
}

/// What the surrounding program reports to the machine.
#[derive(Clone, Copy, PartialEq, Eq, Structural, Debug)]
pub enum RelayEvent {
    /// A request arrived; `authorized` is the token authority's verdict on
    /// its token.
    Request { authorized: bool },
    /// The in-flight fetch delivered the remote resource.
    FetchOk,
    /// The in-flight fetch failed.
    FetchErr,
}

/// What the surrounding program must do next.
#[derive(Clone, Copy, PartialEq, Eq, Structural, Debug)]
pub enum RelayAction {
    /// Delegate to the fetch capability; the one action that touches it.
    StartFetch,
    /// Answer the caller with an access-denied result.
    RespondDenied,
    /// Relay the fetched content to the caller.
    RespondContent,
    /// Answer the caller with a distinguishable failed-relay result, never
    /// an empty success.
    RespondFetchError,
    /// Nothing: the event does not apply in this state.
    Ignore,
}

/// The transition relation, one step.
pub open spec fn relay_step_view(s: RelayState, e: RelayEvent) -> (RelayState, RelayAction) {
    match (s, e) {
        (RelayState::Idle, RelayEvent::Request { authorized }) => if authorized {
            (RelayState::Fetching, RelayAction::StartFetch)
        } else {
            (RelayState::Rejected, RelayAction::RespondDenied)
        },
        (RelayState::Fetching, RelayEvent::FetchOk) => (
            RelayState::Delivered,
            RelayAction::RespondContent,
        ),
        (RelayState::Fetching, RelayEvent::FetchErr) => (
            RelayState::FetchFailed,
            RelayAction::RespondFetchError,
        ),
        _ => (s, RelayAction::Ignore),
    }
}

/// Advances the relay by one observed event.
pub fn relay_step(s: RelayState, e: RelayEvent) -> (r: (RelayState, RelayAction))
    ensures
        r == relay_step_view(s, e),
{
    match (s, e) {
        (RelayState::Idle, RelayEvent::Request { authorized }) => {
            if authorized {
                (RelayState::Fetching, RelayAction::StartFetch)
            } else {
                (RelayState::Rejected, RelayAction::RespondDenied)
            }
        },
        (RelayState::Fetching, RelayEvent::FetchOk) => (
            RelayState::Delivered,
            RelayAction::RespondContent,
        ),
        (RelayState::Fetching, RelayEvent::FetchErr) => (
            RelayState::FetchFailed,
            RelayAction::RespondFetchError,
        ),
        _ => (s, RelayAction::Ignore),
    }
}

/// The actions a run of the machine emits, one per event.
pub open spec fn relay_actions(s: RelayState, events: Seq<RelayEvent>) -> Seq<RelayAction>
    decreases events.len(),
{
    if events.len() == 0 {
        Seq::empty()
    } else {
        let step = relay_step_view(s, events.first());
        seq![step.1] + relay_actions(step.0, events.drop_first())
    }
}

/// How many of the actions delegate to the fetch capability.
pub open spec fn fetch_count(actions: Seq<RelayAction>) -> nat
    decreases actions.len(),
{
    if actions.len() == 0 {
        0
    } else {
        (if actions.first() == RelayAction::StartFetch {
            1nat
        } else {
            0nat
        }) + fetch_count(actions.drop_first())
    }
}

/// Once the machine has left `Idle` it never returns there, and never
/// starts another fetch.
proof fn lemma_no_fetch_outside_idle(s: RelayState, events: Seq<RelayEvent>)
    requires
        s != RelayState::Idle,
    ensures
        fetch_count(relay_actions(s, events)) == 0,
    decreases events.len(),
{
    if events.len() > 0 {
        let step = relay_step_view(s, events.first());
        assert(step.0 != RelayState::Idle);
        assert(step.1 != RelayAction::StartFetch);
        lemma_no_fetch_outside_idle(step.0, events.drop_first());
        assert(relay_actions(s, events).drop_first() =~= relay_actions(step.0, events.drop_first()));
    }
}

/// Relay authorization: over any whole run that starts with a request, a
/// denied token never causes a fetch-capability call, and an allowed token
/// causes exactly one.
pub proof fn lemma_relay_authorization(events: Seq<RelayEvent>, authorized: bool)
    requires
        events.len() > 0,
        events.first() == (RelayEvent::Request { authorized }),
    ensures
        fetch_count(relay_actions(RelayState::Idle, events)) == if authorized {
            1nat
        } else {
            0nat
        },
{
    let step = relay_step_view(RelayState::Idle, events.first());
    lemma_no_fetch_outside_idle(step.0, events.drop_first());
    assert(relay_actions(RelayState::Idle, events).drop_first() =~= relay_actions(
        step.0,
        events.drop_first(),
    ));
}

} // verus!
