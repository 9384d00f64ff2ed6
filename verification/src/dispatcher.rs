//! The decisions of the dispatcher, the task that reads the transport and
//! publishes every text frame on the bus.

use crate::bus::Bus;
use vstd::prelude::*;

verus! {

/// What the transport handed the dispatcher.
#[derive(Clone, Debug, PartialEq, Eq)]
pub enum Inbound {
    /// A text frame.
    Text(String),
    /// A frame of any other kind.
    Other,
    /// A read error.
    Failed,
    /// The end of the connection.
    Closed,
}

/// The dispatcher's state. `Stopped` is final.
#[derive(Clone, Copy, Debug, PartialEq, Eq, Structural)]
pub enum DispatcherState {
    Running,
    Stopped,
}

/// What the dispatcher does next.
#[derive(Clone, Debug, PartialEq, Eq)]
pub enum Action {
    /// Publish this frame on the bus.
    Publish(String),
    /// Go on reading.
    Ignore,
    /// Leave the loop and release the read half.
    Stop,
}

/// The action that the dispatcher owes: a running one publishes a text frame,
/// passes over any other frame, and stops on a read error or at the end of
/// the connection; a stopped one stays stopped.
pub open spec fn action_for(state: DispatcherState, inbound: Inbound) -> Action {
    match state {
        DispatcherState::Stopped => Action::Stop,
        DispatcherState::Running => match inbound {
            Inbound::Text(frame) => Action::Publish(frame),
            Inbound::Other => Action::Ignore,
            Inbound::Failed => Action::Stop,
            Inbound::Closed => Action::Stop,
        },
    }
}

/// The state after a publish: running while a subscription took the frame,
/// stopped once there is none.
pub open spec fn state_after_publish(delivered: bool) -> DispatcherState {
    if delivered {
        DispatcherState::Running
    } else {
        DispatcherState::Stopped
    }
}

/// Decides what to do with what the transport handed over.
pub fn on_inbound(state: DispatcherState, inbound: Inbound) -> (r: Action)
    ensures
        r == action_for(state, inbound),
{
    match state {
        DispatcherState::Stopped => Action::Stop,
        DispatcherState::Running => match inbound {
            Inbound::Text(frame) => Action::Publish(frame),
            Inbound::Other => Action::Ignore,
            Inbound::Failed => Action::Stop,
            Inbound::Closed => Action::Stop,
        },
    }
}

/// Decides how to go on after a publish.
pub fn after_publish(outcome: &Result<usize, String>) -> (r: DispatcherState)
    ensures
        r == state_after_publish(outcome.is_ok()),
{
    match outcome {
        Ok(_) => DispatcherState::Running,
        Err(_) => DispatcherState::Stopped,
    }
}

/// One turn of the dispatcher: takes what the transport handed over,
/// publishes a text frame on the bus, and returns the next state. Whether a
/// published frame found a subscription is the bus's to say; for that case
/// [`after_publish`] gives the state.
pub fn dispatch(state: DispatcherState, bus: &Bus, inbound: Inbound) -> (r: DispatcherState)
    ensures
        state == DispatcherState::Stopped ==> r == DispatcherState::Stopped,
        action_for(state, inbound) is Stop ==> r == DispatcherState::Stopped,
        action_for(state, inbound) is Ignore ==> r == DispatcherState::Running,
{
    match on_inbound(state, inbound) {
        Action::Publish(frame) => {
            let outcome = bus.publish(frame);
            after_publish(&outcome)
        },
        Action::Ignore => DispatcherState::Running,
        Action::Stop => DispatcherState::Stopped,
    }
}

} // verus!
