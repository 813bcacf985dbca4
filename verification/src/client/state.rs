//! How far a client has come with its session.

use vstd::prelude::*;

verus! {

/// How far a client has come.
#[derive(Debug, Clone, Copy, PartialEq, Eq, Structural)]
pub enum ClientState {
    Init,
    Connected,
    HelloDone,
    Authenticated,
    Attached,
    Detached,
    Closed,
}

/// What happens to a client.
#[derive(Debug, Clone, Copy, PartialEq, Eq, Structural)]
pub enum ClientEvent {
    QuicConnected,
    HelloAck,
    AuthOk,
    AttachOk,
    ResumeOk,
    Detached,
    Closed,
    Error,
}

/// Why an event is refused.
#[derive(Debug, Clone, Copy, PartialEq, Eq, Structural)]
pub enum StateError {
    InvalidTransition,
}

impl StateError {
    /// What the error says.
    pub fn message(self) -> (m: String)
        ensures
            m@ == "invalid state transition"@,
    {
        "invalid state transition".to_owned()
    }
}

/// The state after an event, if the event may happen.
pub open spec fn next_state(state: ClientState, event: ClientEvent) -> Option<ClientState> {
    match event {
        ClientEvent::Error => Some(ClientState::Closed),
        ClientEvent::QuicConnected => if state == ClientState::Init {
            Some(ClientState::Connected)
        } else {
            None
        },
        ClientEvent::HelloAck => if state == ClientState::Connected {
            Some(ClientState::HelloDone)
        } else {
            None
        },
        ClientEvent::AuthOk => if state == ClientState::HelloDone {
            Some(ClientState::Authenticated)
        } else {
            None
        },
        ClientEvent::AttachOk | ClientEvent::ResumeOk => if state == ClientState::Authenticated {
            Some(ClientState::Attached)
        } else {
            None
        },
        ClientEvent::Detached => if state == ClientState::Attached {
            Some(ClientState::Detached)
        } else {
            None
        },
        ClientEvent::Closed => if state == ClientState::Attached || state == ClientState::Detached {
            Some(ClientState::Closed)
        } else {
            None
        },
    }
}

/// Moves on with an event.
pub fn transition(state: ClientState, event: ClientEvent) -> (next: Result<ClientState, StateError>)
    ensures
        next == match next_state(state, event) {
            Some(s) => Ok::<ClientState, StateError>(s),
            None => Err::<ClientState, StateError>(StateError::InvalidTransition),
        },
{
    let next = match (state, event) {
        (ClientState::Init, ClientEvent::QuicConnected) => ClientState::Connected,
        (ClientState::Connected, ClientEvent::HelloAck) => ClientState::HelloDone,
        (ClientState::HelloDone, ClientEvent::AuthOk) => ClientState::Authenticated,
        (ClientState::Authenticated, ClientEvent::AttachOk | ClientEvent::ResumeOk) => {
            ClientState::Attached
        },
        (ClientState::Attached, ClientEvent::Detached) => ClientState::Detached,
        (ClientState::Attached, ClientEvent::Closed)
        | (ClientState::Detached, ClientEvent::Closed) => ClientState::Closed,
        (_, ClientEvent::Error) => ClientState::Closed,
        _ => {
            return Err(StateError::InvalidTransition);
        },
    };
    Ok(next)
}

/// How far a state is from the start.
pub open spec fn progress(state: ClientState) -> int {
    match state {
        ClientState::Init => 0,
        ClientState::Connected => 1,
        ClientState::HelloDone => 2,
        ClientState::Authenticated => 3,
        ClientState::Attached => 4,
        ClientState::Detached => 5,
        ClientState::Closed => 6,
    }
}

/// A client never goes back, and moves to the next state unless it closes.
pub proof fn law_client_moves_forward(state: ClientState, event: ClientEvent)
    requires
        next_state(state, event) is Some,
    ensures
        progress(next_state(state, event)->0) >= progress(state),
        next_state(state, event)->0 != ClientState::Closed ==> progress(next_state(state, event)->0)
            == progress(state) + 1,
{
}

/// A client becomes attached only by `ATTACH_OK` or `RESUME_OK` after it has authenticated.
pub proof fn law_client_attaches_authenticated(state: ClientState, event: ClientEvent)
    requires
        next_state(state, event) == Some(ClientState::Attached),
    ensures
        state == ClientState::Authenticated,
        event == ClientEvent::AttachOk || event == ClientEvent::ResumeOk,
{
}

/// Every error closes the client, and a closed client stays closed.
pub proof fn law_errors_close_for_good(state: ClientState, event: ClientEvent)
    ensures
        next_state(state, ClientEvent::Error) == Some(ClientState::Closed),
        next_state(ClientState::Closed, event) is Some ==> next_state(ClientState::Closed, event)
            == Some(ClientState::Closed),
{
}

/// Each event of a client has its place: the answers of the handshake come one after the other, a
/// session is detached while it is attached, and it is closed while it is attached or after that.
/// An error may come at any time and closes it.
pub proof fn law_each_event_has_its_place(state: ClientState)
    ensures
        next_state(ClientState::Init, ClientEvent::QuicConnected) == Some(ClientState::Connected),
        next_state(ClientState::Connected, ClientEvent::HelloAck) == Some(ClientState::HelloDone),
        next_state(ClientState::HelloDone, ClientEvent::AuthOk) == Some(
            ClientState::Authenticated,
        ),
        next_state(ClientState::Authenticated, ClientEvent::AttachOk) == Some(
            ClientState::Attached,
        ),
        next_state(ClientState::Authenticated, ClientEvent::ResumeOk) == Some(
            ClientState::Attached,
        ),
        next_state(ClientState::Attached, ClientEvent::Detached) == Some(ClientState::Detached),
        next_state(ClientState::Attached, ClientEvent::Closed) == Some(ClientState::Closed),
        next_state(ClientState::Detached, ClientEvent::Closed) == Some(ClientState::Closed),
        next_state(state, ClientEvent::Error) == Some(ClientState::Closed),
        state != ClientState::Init ==> next_state(state, ClientEvent::QuicConnected) is None,
        state != ClientState::Connected ==> next_state(state, ClientEvent::HelloAck) is None,
        state != ClientState::HelloDone ==> next_state(state, ClientEvent::AuthOk) is None,
        state != ClientState::Authenticated ==> next_state(state, ClientEvent::AttachOk) is None
            && next_state(state, ClientEvent::ResumeOk) is None,
        state != ClientState::Attached ==> next_state(state, ClientEvent::Detached) is None,
        state != ClientState::Attached && state != ClientState::Detached ==> next_state(
            state,
            ClientEvent::Closed,
        ) is None,
{
}

} // verus!
