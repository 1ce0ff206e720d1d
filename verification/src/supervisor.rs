//! The accept loop of one channel as a state machine. The caller reads the
//! shutdown signal, waits on the listener and spawns the handlers; the
//! machine decides which of these comes next.
use vstd::prelude::*;

verus! {

/// The three services that the server listens for.
#[derive(Clone, Copy, Debug, PartialEq, Eq, Structural)]
pub enum Channel {
    Login,
    Persona,
    Lobby,
}

impl Channel {
    /// The port a channel listens on unless configured otherwise.
    pub open spec fn spec_default_port(self) -> u16 {
        match self {
            Channel::Login => 8226,
            Channel::Persona => 8228,
            Channel::Lobby => 7003,
        }
    }

    /// The port a channel listens on unless configured otherwise.
    pub fn default_port(&self) -> (port: u16)
        ensures
            port == self.spec_default_port(),
    {
        match self {
            Channel::Login => 8226,
            Channel::Persona => 8228,
            Channel::Lobby => 7003,
        }
    }

    /// The channel's name, as handed to the connection handler.
    pub fn name(&self) -> (s: &'static str)
        ensures
            s@ == match *self {
                Channel::Login => "login"@,
                Channel::Persona => "persona"@,
                Channel::Lobby => "lobby"@,
            },
    {
        match self {
            Channel::Login => "login",
            Channel::Persona => "persona",
            Channel::Lobby => "lobby",
        }
    }
}

/// Where an accept loop stands.
#[derive(Clone, Copy, Debug, PartialEq, Eq, Structural)]
pub enum LoopState {
    /// About to look at the shutdown signal.
    Polling,
    /// Waiting on the listener.
    Accepting,
    /// The loop has ended.
    Stopped,
}

/// What the caller reports back.
#[derive(Clone, Copy, Debug, PartialEq, Eq, Structural)]
pub enum LoopEvent {
    /// The signal was read: `running` is false once shutdown is asked for.
    Signal { running: bool },
    /// The listener handed out a connection.
    Accepted,
    /// The listener reported an error.
    AcceptFailed,
}

/// What the caller is to do next.
#[derive(Clone, Copy, Debug, PartialEq, Eq, Structural)]
pub enum LoopAction {
    /// Read the shutdown signal.
    ReadSignal,
    /// Wait on the listener for the next connection.
    Accept,
    /// Start a handler for the new connection without waiting for it, then
    /// read the signal.
    SpawnHandler,
    /// Log the listener's error, then read the signal.
    LogAcceptError,
    /// Leave the loop.
    Exit,
}

/// The transition function of the accept loop.
pub open spec fn spec_accept_step(state: LoopState, event: LoopEvent) -> (LoopState, LoopAction) {
    match (state, event) {
        (LoopState::Polling, LoopEvent::Signal { running: true }) => (
            LoopState::Accepting,
            LoopAction::Accept,
        ),
        (LoopState::Polling, LoopEvent::Signal { running: false }) => (
            LoopState::Stopped,
            LoopAction::Exit,
        ),
        (LoopState::Polling, _) => (LoopState::Polling, LoopAction::ReadSignal),
        (LoopState::Accepting, LoopEvent::Accepted) => (
            LoopState::Polling,
            LoopAction::SpawnHandler,
        ),
        (LoopState::Accepting, LoopEvent::AcceptFailed) => (
            LoopState::Polling,
            LoopAction::LogAcceptError,
        ),
        (LoopState::Accepting, LoopEvent::Signal { running: _ }) => (
            LoopState::Accepting,
            LoopAction::Accept,
        ),
        (LoopState::Stopped, _) => (LoopState::Stopped, LoopAction::Exit),
    }
}

/// Opens the loop: the state to start in and the first thing to do.
pub fn accept_start() -> (r: (LoopState, LoopAction))
    ensures
        r == (LoopState::Polling, LoopAction::ReadSignal),
{
    (LoopState::Polling, LoopAction::ReadSignal)
}

/// Advances the accept loop by one event.
pub fn accept_step(state: LoopState, event: LoopEvent) -> (r: (LoopState, LoopAction))
    ensures
        r == spec_accept_step(state, event),
{
    match state {
        LoopState::Polling => match event {
            LoopEvent::Signal { running } => {
                if running {
                    (LoopState::Accepting, LoopAction::Accept)
                } else {
                    (LoopState::Stopped, LoopAction::Exit)
                }
            },
            _ => (LoopState::Polling, LoopAction::ReadSignal),
        },
        LoopState::Accepting => match event {
            LoopEvent::Accepted => (LoopState::Polling, LoopAction::SpawnHandler),
            LoopEvent::AcceptFailed => (LoopState::Polling, LoopAction::LogAcceptError),
            LoopEvent::Signal { running: _ } => (LoopState::Accepting, LoopAction::Accept),
        },
        LoopState::Stopped => (LoopState::Stopped, LoopAction::Exit),
    }
}

/// Once shutdown is asked for, a loop that is not blocked on the listener
/// stops at its next look at the signal; one that is blocked looks at the
/// signal as soon as the listener returns, with a connection or an error,
/// and stops then. A stopped loop stays stopped.
pub proof fn lemma_shutdown_is_observed(returned: LoopEvent)
    requires
        returned is Accepted || returned is AcceptFailed,
    ensures
        spec_accept_step(LoopState::Polling, LoopEvent::Signal { running: false }) == (
            LoopState::Stopped,
            LoopAction::Exit,
        ),
        spec_accept_step(LoopState::Accepting, returned).0 == LoopState::Polling,
        spec_accept_step(
            spec_accept_step(LoopState::Accepting, returned).0,
            LoopEvent::Signal { running: false },
        ).0 == LoopState::Stopped,
        forall|e: LoopEvent| (#[trigger] spec_accept_step(LoopState::Stopped, e)).0
            == LoopState::Stopped,
{
}

/// Only the shutdown signal ends a loop: an error of the listener, or any
/// other event, leaves a running loop running.
pub proof fn lemma_only_shutdown_stops(state: LoopState, event: LoopEvent)
    requires
        state != LoopState::Stopped,
        spec_accept_step(state, event).0 == LoopState::Stopped,
    ensures
        state == LoopState::Polling,
        event == (LoopEvent::Signal { running: false }),
{
}

} // verus!
