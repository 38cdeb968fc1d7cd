//! The states of one call and the race between the transport and the
//! deadline: the first terminal transition wins.
use vstd::prelude::*;

verus! {

/// Where a call stands.
#[derive(Debug, Clone, Copy, PartialEq, Eq, Structural)]
pub enum CallState {
    Building,
    HeadersReady,
    Assembled,
    /// Waiting for the transport; the only state in which the deadline can
    /// cancel the call.
    InFlight,
    Completed,
    TimedOut,
    TransportFailed,
    DecodeFailed,
}

/// What happened to a call.
#[derive(Debug, Clone, Copy, PartialEq, Eq, Structural)]
pub enum CallEvent {
    HeadersBuilt,
    RequestAssembled,
    Dispatched,
    /// The transport answered and the body was read.
    ResponseRead,
    /// The transport reported a failure.
    TransportError,
    /// The deadline passed.
    DeadlineElapsed,
    /// The transport answered but its body could not be read.
    BodyUnreadable,
}

/// What the caller of the transport must do next.
#[derive(Debug, Clone, Copy, PartialEq, Eq, Structural)]
pub enum CallAction {
    Nothing,
    /// Signal cancellation to the transport.
    Abort,
}

/// A call that has ended.
pub open spec fn is_terminal(s: CallState) -> bool {
    s == CallState::Completed || s == CallState::TimedOut || s == CallState::TransportFailed || s
        == CallState::DecodeFailed
}

/// The state and action an event leads to. A call moves forward one step at
/// a time; while in flight, the first of response, failure and deadline
/// decides how it ends, and the deadline asks for cancellation. Any other
/// event leaves the state as it is.
pub open spec fn transition(s: CallState, e: CallEvent) -> (CallState, CallAction) {
    match (s, e) {
        (CallState::Building, CallEvent::HeadersBuilt) => (CallState::HeadersReady, CallAction::Nothing),
        (CallState::HeadersReady, CallEvent::RequestAssembled) => (CallState::Assembled, CallAction::Nothing),
        (CallState::Assembled, CallEvent::Dispatched) => (CallState::InFlight, CallAction::Nothing),
        (CallState::InFlight, CallEvent::ResponseRead) => (CallState::Completed, CallAction::Nothing),
        (CallState::InFlight, CallEvent::TransportError) => (
            CallState::TransportFailed,
            CallAction::Nothing,
        ),
        (CallState::InFlight, CallEvent::DeadlineElapsed) => (CallState::TimedOut, CallAction::Abort),
        (CallState::InFlight, CallEvent::BodyUnreadable) => (CallState::DecodeFailed, CallAction::Nothing),
        _ => (s, CallAction::Nothing),
    }
}

/// The state a sequence of events leads to.
pub open spec fn run(s: CallState, events: Seq<CallEvent>) -> CallState
    decreases events.len(),
{
    if events.len() == 0 {
        s
    } else {
        transition(run(s, events.drop_last()), events.last()).0
    }
}

impl CallState {
    /// Whether the call has ended.
    pub fn is_terminal(&self) -> (r: bool)
        ensures
            r == is_terminal(*self),
    {
        match self {
            CallState::Completed | CallState::TimedOut | CallState::TransportFailed
            | CallState::DecodeFailed => true,
            _ => false,
        }
    }

    /// The state and action an event leads to.
    pub fn step(self, event: CallEvent) -> (r: (CallState, CallAction))
        ensures
            r == transition(self, event),
    {
        match (self, event) {
            (CallState::Building, CallEvent::HeadersBuilt) => (CallState::HeadersReady, CallAction::Nothing),
            (CallState::HeadersReady, CallEvent::RequestAssembled) => (
                CallState::Assembled,
                CallAction::Nothing,
            ),
            (CallState::Assembled, CallEvent::Dispatched) => (CallState::InFlight, CallAction::Nothing),
            (CallState::InFlight, CallEvent::ResponseRead) => (CallState::Completed, CallAction::Nothing),
            (CallState::InFlight, CallEvent::TransportError) => (
                CallState::TransportFailed,
                CallAction::Nothing,
            ),
            (CallState::InFlight, CallEvent::DeadlineElapsed) => (CallState::TimedOut, CallAction::Abort),
            (CallState::InFlight, CallEvent::BodyUnreadable) => (
                CallState::DecodeFailed,
                CallAction::Nothing,
            ),
            _ => (self, CallAction::Nothing),
        }
    }
}

/// The first terminal transition wins: once a call has ended, no later event
/// changes how it ended, and none asks for cancellation.
pub proof fn lemma_terminal_is_final(s: CallState, events: Seq<CallEvent>)
    requires
        is_terminal(s),
    ensures
        run(s, events) == s,
        forall|e: CallEvent| #[trigger] transition(s, e) == (s, CallAction::Nothing),
    decreases events.len(),
{
    if events.len() > 0 {
        lemma_terminal_is_final(s, events.drop_last());
    }
}

/// Cancellation is asked for only when the deadline passes while the call is
/// in flight, and it ends the call as timed out.
pub proof fn lemma_abort_only_on_deadline(s: CallState, e: CallEvent)
    ensures
        transition(s, e).1 == CallAction::Abort <==> (s == CallState::InFlight && e
            == CallEvent::DeadlineElapsed),
        transition(s, e).1 == CallAction::Abort ==> transition(s, e).0 == CallState::TimedOut,
{
}

} // verus!
