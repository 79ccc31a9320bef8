use vstd::prelude::*;

verus! {

/// The stages of a session with the vehicle.
#[derive(Clone, Copy, Debug, PartialEq, Eq, PartialOrd, Ord, Structural)]
pub enum ConnectionState {
    Disconnected,
    Connecting,
    Connected,
    Quit,
}

/// What can happen to a session.
#[derive(Clone, Copy, Debug, PartialEq, Eq, PartialOrd, Ord, Structural)]
pub enum Event {
    ConnectionRequest,
    ConnectionAcknowledge,
    Connected,
    Disconnected,
    Timeout,
    QuitRequest,
}

/// The stage that `event` leads to from `state`; an event that no transition names
/// leaves the stage as it is.
pub open spec fn transition(state: ConnectionState, event: Event) -> ConnectionState {
    match (state, event) {
        (ConnectionState::Quit, _) => ConnectionState::Quit,
        (_, Event::QuitRequest) => ConnectionState::Quit,
        (ConnectionState::Disconnected, Event::ConnectionRequest) => ConnectionState::Connecting,
        (ConnectionState::Connecting, Event::ConnectionAcknowledge) => ConnectionState::Connected,
        (ConnectionState::Connected, Event::Timeout) => ConnectionState::Disconnected,
        (ConnectionState::Connected, Event::Disconnected) => ConnectionState::Disconnected,
        _ => state,
    }
}

/// Computes the stage that `event` leads to from `state`.
pub fn next_state(state: ConnectionState, event: Event) -> (r: ConnectionState)
    ensures
        r == transition(state, event),
{
    match (state, event) {
        (ConnectionState::Quit, _) => ConnectionState::Quit,
        (_, Event::QuitRequest) => ConnectionState::Quit,
        (ConnectionState::Disconnected, Event::ConnectionRequest) => ConnectionState::Connecting,
        (ConnectionState::Connecting, Event::ConnectionAcknowledge) => ConnectionState::Connected,
        (ConnectionState::Connected, Event::Timeout) => ConnectionState::Disconnected,
        (ConnectionState::Connected, Event::Disconnected) => ConnectionState::Disconnected,
        _ => state,
    }
}

/// Once a session has quit, no event brings it back.
pub proof fn lemma_quit_is_terminal(event: Event)
    ensures
        transition(ConnectionState::Quit, event) == ConnectionState::Quit,
{
}

/// The sequence number that the first binary packet of a session carries.
pub const INITIAL_SEQUENCE_NUMBER: u16 = 0x01e4;

/// The state of a session of the binary protocol.
pub struct Connection {
    state: ConnectionState,
    sequence_number: u16,
}

impl Connection {
    pub closed spec fn spec_state(&self) -> ConnectionState {
        self.state
    }

    pub closed spec fn spec_sequence_number(&self) -> u16 {
        self.sequence_number
    }

    /// A session that has not connected yet.
    pub fn new() -> (r: Self)
        ensures
            r.spec_state() == ConnectionState::Disconnected,
            r.spec_sequence_number() == INITIAL_SEQUENCE_NUMBER,
    {
        Connection { state: ConnectionState::Disconnected, sequence_number: INITIAL_SEQUENCE_NUMBER }
    }

    pub fn state(&self) -> (r: ConnectionState)
        ensures
            r == self.spec_state(),
    {
        self.state
    }

    pub fn sequence_number(&self) -> (r: u16)
        ensures
            r == self.spec_sequence_number(),
    {
        self.sequence_number
    }

    /// Whether the receive loop sends stick keep-alive traffic: only while connected.
    pub fn sends_keep_alive(&self) -> (r: bool)
        ensures
            r == (self.spec_state() == ConnectionState::Connected),
    {
        self.state == ConnectionState::Connected
    }

    /// Moves the session on by `event`.
    pub fn state_machine(&mut self, event: Event)
        ensures
            final(self).spec_state() == transition(old(self).spec_state(), event),
            final(self).spec_sequence_number() == old(self).spec_sequence_number(),
    {
        self.state = next_state(self.state, event);
    }
}

} // verus!
