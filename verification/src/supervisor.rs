//! The supervisor: the restart-forever state machine around one session.
//!
//! The caller performs the action that belongs to the current state and
//! hands back what happened; `next_state` decides where to go. A session is
//! released before the cooldown begins, and a new one is opened only after
//! the cooldown has been waited out.

use vstd::prelude::*;
use crate::errors::PortLostError;
use crate::errors::PortOpenError;
use crate::ports::Endpoints;

verus! {

/// Seconds between two watchdog ticks.
pub const POLL_INTERVAL_SECS: u64 = 1;

/// Seconds to wait after a session has ended before the next one is opened.
pub const COOLDOWN_SECS: u64 = 1;

#[derive(Debug, PartialEq, Eq, Structural, Copy, Clone)]
pub enum State {
    /// No session; the next one is about to be opened.
    Starting,
    /// A session is open and the watchdog ticks.
    SessionActive,
    /// The session met an unexpected fault and is to be released.
    SessionFailed,
    /// The watchdog missed a port; the session is to be released.
    SessionLost,
    /// No session; waiting before the next start.
    Cooldown,
}

#[derive(Debug, PartialEq, Eq, Structural, Copy, Clone)]
pub enum Event {
    /// The session was opened.
    Opened,
    /// The session could not be opened.
    OpenFailed,
    /// A watchdog tick found both ports.
    PortsPresent,
    /// A watchdog tick missed a port.
    PortLost,
    /// Anything else went wrong inside the session.
    Fault,
    /// The session's callback binding and output connection were released.
    Released,
    /// The delay has passed.
    Waited,
}

#[derive(Debug, PartialEq, Eq, Structural, Copy, Clone)]
pub enum Action {
    /// Resolve the ports and open a session.
    Open,
    /// Sleep for `secs` seconds, then check that both ports are present.
    Poll { secs: u64 },
    /// Release the session.
    Release,
    /// Sleep for `secs` seconds.
    Wait { secs: u64 },
}

/// The state that follows `state` on `event`. An event that does not belong
/// to the state opens no session and skips no release or wait.
pub open spec fn successor(state: State, event: Event) -> State {
    match state {
        State::Starting => match event {
            Event::Opened => State::SessionActive,
            _ => State::Cooldown,
        },
        State::SessionActive => match event {
            Event::PortsPresent => State::SessionActive,
            Event::PortLost => State::SessionLost,
            _ => State::SessionFailed,
        },
        State::SessionFailed => match event {
            Event::Released => State::Cooldown,
            _ => State::SessionFailed,
        },
        State::SessionLost => match event {
            Event::Released => State::Cooldown,
            _ => State::SessionLost,
        },
        State::Cooldown => match event {
            Event::Waited => State::Starting,
            _ => State::Cooldown,
        },
    }
}

/// What the caller does in `state`.
pub open spec fn duty(state: State) -> Action {
    match state {
        State::Starting => Action::Open,
        State::SessionActive => Action::Poll { secs: POLL_INTERVAL_SECS },
        State::SessionFailed => Action::Release,
        State::SessionLost => Action::Release,
        State::Cooldown => Action::Wait { secs: COOLDOWN_SECS },
    }
}

/// A session is open in `state`.
pub open spec fn holds_session(state: State) -> bool {
    state is SessionActive || state is SessionFailed || state is SessionLost
}

/// The event that answers `duty(state)` and moves the machine on.
pub open spec fn answers(state: State, event: Event) -> bool {
    match state {
        State::Starting => event is Opened || event is OpenFailed,
        State::SessionActive => event is PortsPresent || event is PortLost || event is Fault,
        State::SessionFailed => event is Released,
        State::SessionLost => event is Released,
        State::Cooldown => event is Waited,
    }
}

impl State {
    /// The state in which the supervisor begins.
    pub fn initial() -> (state: State)
        ensures
            state == State::Starting,
    {
        State::Starting
    }

    pub fn next_state(self, event: Event) -> (next: State)
        ensures
            next == successor(self, event),
    {
        match self {
            State::Starting => match event {
                Event::Opened => State::SessionActive,
                _ => State::Cooldown,
            },
            State::SessionActive => match event {
                Event::PortsPresent => State::SessionActive,
                Event::PortLost => State::SessionLost,
                _ => State::SessionFailed,
            },
            State::SessionFailed => match event {
                Event::Released => State::Cooldown,
                _ => State::SessionFailed,
            },
            State::SessionLost => match event {
                Event::Released => State::Cooldown,
                _ => State::SessionLost,
            },
            State::Cooldown => match event {
                Event::Waited => State::Starting,
                _ => State::Cooldown,
            },
        }
    }

    pub fn action(self) -> (action: Action)
        ensures
            action == duty(self),
    {
        match self {
            State::Starting => Action::Open,
            State::SessionActive => Action::Poll { secs: POLL_INTERVAL_SECS },
            State::SessionFailed => Action::Release,
            State::SessionLost => Action::Release,
            State::Cooldown => Action::Wait { secs: COOLDOWN_SECS },
        }
    }
}

impl Event {
    /// The event for the outcome of resolving the ports of a new session.
    pub fn of_open(outcome: &Result<Endpoints, PortOpenError>) -> (event: Event)
        ensures
            event == (if outcome.is_ok() {
                Event::Opened
            } else {
                Event::OpenFailed
            }),
    {
        match outcome {
            Ok(_) => Event::Opened,
            Err(_) => Event::OpenFailed,
        }
    }

    /// The event for the outcome of one watchdog tick.
    pub fn of_tick(outcome: &Result<(), PortLostError>) -> (event: Event)
        ensures
            event == (if outcome.is_ok() {
                Event::PortsPresent
            } else {
                Event::PortLost
            }),
    {
        match outcome {
            Ok(_) => Event::PortsPresent,
            Err(_) => Event::PortLost,
        }
    }
}

/// The supervisor never ends: from every state some event leads to another
/// state, and every state has its action.
pub proof fn law_no_terminal_state(state: State)
    ensures
        exists|event: Event| answers(state, event) && #[trigger] successor(state, event) != state,
{
    match state {
        State::Starting => {
            assert(successor(state, Event::Opened) != state);
        },
        State::SessionActive => {
            assert(successor(state, Event::PortLost) != state);
        },
        State::SessionFailed => {
            assert(successor(state, Event::Released) != state);
        },
        State::SessionLost => {
            assert(successor(state, Event::Released) != state);
        },
        State::Cooldown => {
            assert(successor(state, Event::Waited) != state);
        },
    }
}

/// No two sessions at once: a session is opened only from `Starting`, where
/// none is held, and `Starting` is reached only by waiting out the
/// cooldown, which is entered only once the session has been released.
pub proof fn law_one_session_at_a_time(state: State, event: Event)
    ensures
        duty(state) is Open ==> !holds_session(state),
        !holds_session(state) && holds_session(successor(state, event)) ==> state is Starting
            && event is Opened,
        holds_session(state) && !holds_session(successor(state, event)) ==> event is Released
            && successor(state, event) is Cooldown,
        successor(state, event) is Starting ==> state is Cooldown && event is Waited,
        successor(state, event) is SessionActive ==> (state is Starting && event is Opened) || (state
            is SessionActive && event is PortsPresent),
        state is SessionActive && !(successor(state, event) is SessionActive) ==> duty(
            successor(state, event),
        ) is Release,
{
}

} // verus!
