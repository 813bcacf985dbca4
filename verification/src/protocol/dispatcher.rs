//! The order in which a connection may send control messages.

use crate::protocol::messages::MessageKind;
use vstd::prelude::*;

verus! {

/// How far a connection has come.
#[derive(Debug, Clone, Copy, PartialEq, Eq, Structural)]
pub enum ConnectionState {
    AwaitHello,
    AwaitAuth,
    AwaitAttachOrResume,
    Attached,
    Closed,
}

/// Why a message is refused.
#[derive(Debug, Clone, Copy, PartialEq, Eq, Structural)]
pub enum DispatchError {
    ProtocolOrder,
}

impl DispatchError {
    /// What the error says.
    pub fn message(self) -> (m: String)
        ensures
            m@ == "protocol error: out-of-order message"@,
    {
        "protocol error: out-of-order message".to_owned()
    }
}

/// Whether the connection goes on after a message.
#[derive(Debug, Clone, Copy, PartialEq, Eq, Structural)]
pub enum DispatchOutcome {
    Continue,
    Close,
}

/// Follows the control messages of one connection.
#[derive(Debug)]
pub struct Dispatcher {
    state: ConnectionState,
}

/// Whether a connection in this state may send this message.
pub open spec fn allowed(state: ConnectionState, kind: MessageKind) -> bool {
    match state {
        ConnectionState::AwaitHello => kind == MessageKind::Hello || kind == MessageKind::Ping,
        ConnectionState::AwaitAuth => kind == MessageKind::Auth || kind == MessageKind::Ping,
        ConnectionState::AwaitAttachOrResume => {
            ||| kind == MessageKind::Attach
            ||| kind == MessageKind::Resume
            ||| kind == MessageKind::Close
            ||| kind == MessageKind::Ping
        },
        ConnectionState::Attached => {
            ||| kind == MessageKind::Resize
            ||| kind == MessageKind::Detach
            ||| kind == MessageKind::Ping
            ||| kind == MessageKind::Close
        },
        ConnectionState::Closed => false,
    }
}

/// The state after an allowed message.
pub open spec fn advance(state: ConnectionState, kind: MessageKind) -> ConnectionState {
    match kind {
        MessageKind::Hello => ConnectionState::AwaitAuth,
        MessageKind::Auth => ConnectionState::AwaitAttachOrResume,
        MessageKind::Attach | MessageKind::Resume => ConnectionState::Attached,
        MessageKind::Close => ConnectionState::Closed,
        _ => state,
    }
}

/// What the dispatcher answers to a message.
pub open spec fn dispatch(state: ConnectionState, kind: MessageKind) -> Result<
    DispatchOutcome,
    DispatchError,
> {
    if !allowed(state, kind) {
        Err(DispatchError::ProtocolOrder)
    } else if kind == MessageKind::Close {
        Ok(DispatchOutcome::Close)
    } else {
        Ok(DispatchOutcome::Continue)
    }
}

impl View for Dispatcher {
    type V = ConnectionState;

    closed spec fn view(&self) -> ConnectionState {
        self.state
    }
}

impl Default for Dispatcher {
    fn default() -> (d: Dispatcher)
        ensures
            d@ == ConnectionState::AwaitHello,
    {
        Dispatcher { state: ConnectionState::AwaitHello }
    }
}

impl Dispatcher {
    /// How far the connection has come.
    pub fn state(&self) -> (state: ConnectionState)
        ensures
            state == self@,
    {
        self.state
    }

    /// Takes note of a message, or refuses it and stays where it is.
    pub fn on_message(&mut self, kind: MessageKind) -> (outcome: Result<
        DispatchOutcome,
        DispatchError,
    >)
        ensures
            outcome == dispatch(old(self)@, kind),
            final(self)@ == if allowed(old(self)@, kind) {
                advance(old(self)@, kind)
            } else {
                old(self)@
            },
    {
        match (self.state, kind) {
            (ConnectionState::AwaitHello, MessageKind::Hello) => {
                self.state = ConnectionState::AwaitAuth;
                Ok(DispatchOutcome::Continue)
            },
            (ConnectionState::AwaitHello, MessageKind::Ping) => Ok(DispatchOutcome::Continue),
            (ConnectionState::AwaitAuth, MessageKind::Auth) => {
                self.state = ConnectionState::AwaitAttachOrResume;
                Ok(DispatchOutcome::Continue)
            },
            (ConnectionState::AwaitAuth, MessageKind::Ping) => Ok(DispatchOutcome::Continue),
            (
                ConnectionState::AwaitAttachOrResume,
                MessageKind::Attach | MessageKind::Resume,
            ) => {
                self.state = ConnectionState::Attached;
                Ok(DispatchOutcome::Continue)
            },
            (ConnectionState::AwaitAttachOrResume, MessageKind::Close) => {
                self.state = ConnectionState::Closed;
                Ok(DispatchOutcome::Close)
            },
            (ConnectionState::AwaitAttachOrResume, MessageKind::Ping) => Ok(
                DispatchOutcome::Continue,
            ),
            (
                ConnectionState::Attached,
                MessageKind::Resize | MessageKind::Detach | MessageKind::Ping,
            ) => Ok(DispatchOutcome::Continue),
            (ConnectionState::Attached, MessageKind::Close) => {
                self.state = ConnectionState::Closed;
                Ok(DispatchOutcome::Close)
            },
            _ => Err(DispatchError::ProtocolOrder),
        }
    }
}

/// The state of a new connection after the messages of `trace`, those that are refused having no
/// effect.
pub open spec fn state_after(trace: Seq<MessageKind>) -> ConnectionState
    decreases trace.len(),
{
    if trace.len() == 0 {
        ConnectionState::AwaitHello
    } else {
        let before = state_after(trace.drop_last());
        if allowed(before, trace.last()) {
            advance(before, trace.last())
        } else {
            before
        }
    }
}

/// A connection can only be attached after it has sent `HELLO`, then `AUTH`, then `ATTACH` or
/// `RESUME`, in this order, whatever else it sent in between.
pub proof fn law_attached_needs_full_handshake(trace: Seq<MessageKind>) -> (steps: (int, int, int))
    requires
        state_after(trace) == ConnectionState::Attached,
    ensures
        0 <= steps.0 < steps.1 < steps.2 < trace.len(),
        trace[steps.0] == MessageKind::Hello,
        trace[steps.1] == MessageKind::Auth,
        trace[steps.2] == MessageKind::Attach || trace[steps.2] == MessageKind::Resume,
    decreases trace.len(),
{
    let shorter = trace.drop_last();
    if state_after(shorter) == ConnectionState::Attached {
        law_attached_needs_full_handshake(shorter)
    } else {
        let (hello, auth) = lemma_authenticated_needs_auth(shorter);
        (hello, auth, trace.len() - 1)
    }
}

/// `ATTACH` and `RESUME` are only awaited after `HELLO` and then `AUTH`.
proof fn lemma_authenticated_needs_auth(trace: Seq<MessageKind>) -> (steps: (int, int))
    requires
        state_after(trace) == ConnectionState::AwaitAttachOrResume,
    ensures
        0 <= steps.0 < steps.1 < trace.len(),
        trace[steps.0] == MessageKind::Hello,
        trace[steps.1] == MessageKind::Auth,
    decreases trace.len(),
{
    let shorter = trace.drop_last();
    if state_after(shorter) == ConnectionState::AwaitAttachOrResume {
        lemma_authenticated_needs_auth(shorter)
    } else {
        let hello = lemma_greeted_needs_hello(shorter);
        (hello, trace.len() - 1)
    }
}

/// `AUTH` is only awaited after `HELLO`.
proof fn lemma_greeted_needs_hello(trace: Seq<MessageKind>) -> (step: int)
    requires
        state_after(trace) == ConnectionState::AwaitAuth,
    ensures
        0 <= step < trace.len(),
        trace[step] == MessageKind::Hello,
    decreases trace.len(),
{
    let shorter = trace.drop_last();
    if state_after(shorter) == ConnectionState::AwaitAuth {
        lemma_greeted_needs_hello(shorter)
    } else {
        trace.len() - 1
    }
}

/// A closed connection refuses every message and stays closed.
pub proof fn law_closed_is_final(trace: Seq<MessageKind>, more: Seq<MessageKind>)
    requires
        state_after(trace) == ConnectionState::Closed,
    ensures
        state_after(trace + more) == ConnectionState::Closed,
        forall|kind: MessageKind|
            #[trigger] dispatch(ConnectionState::Closed, kind) == Err::<
                DispatchOutcome,
                DispatchError,
            >(DispatchError::ProtocolOrder),
    decreases more.len(),
{
    if more.len() == 0 {
        assert(trace + more == trace);
    } else {
        law_closed_is_final(trace, more.drop_last());
        assert((trace + more).drop_last() == trace + more.drop_last());
    }
}

/// `RESIZE` and `DETACH` are accepted exactly while attached.
pub proof fn law_terminal_messages_need_attachment(state: ConnectionState)
    ensures
        allowed(state, MessageKind::Resize) <==> state == ConnectionState::Attached,
        allowed(state, MessageKind::Detach) <==> state == ConnectionState::Attached,
{
}

/// What each message needs and where it leads: the three steps of the handshake each follow the one
/// before, terminal messages need an attachment, `CLOSE` needs authentication, `PING` may always be
/// sent until the connection is closed, and what only servers send is never accepted.
pub proof fn law_each_message_has_its_place(state: ConnectionState)
    ensures
        allowed(state, MessageKind::Hello) <==> state == ConnectionState::AwaitHello,
        allowed(state, MessageKind::Auth) <==> state == ConnectionState::AwaitAuth,
        allowed(state, MessageKind::Attach) <==> state == ConnectionState::AwaitAttachOrResume,
        allowed(state, MessageKind::Resume) <==> state == ConnectionState::AwaitAttachOrResume,
        allowed(state, MessageKind::Resize) <==> state == ConnectionState::Attached,
        allowed(state, MessageKind::Detach) <==> state == ConnectionState::Attached,
        allowed(state, MessageKind::Close) <==> state == ConnectionState::AwaitAttachOrResume
            || state == ConnectionState::Attached,
        allowed(state, MessageKind::Ping) <==> state != ConnectionState::Closed,
        !allowed(state, MessageKind::Pong),
        !allowed(state, MessageKind::Error),
        advance(state, MessageKind::Hello) == ConnectionState::AwaitAuth,
        advance(state, MessageKind::Auth) == ConnectionState::AwaitAttachOrResume,
        advance(state, MessageKind::Attach) == ConnectionState::Attached,
        advance(state, MessageKind::Resume) == ConnectionState::Attached,
        advance(state, MessageKind::Close) == ConnectionState::Closed,
        advance(state, MessageKind::Resize) == state,
        advance(state, MessageKind::Detach) == state,
        advance(state, MessageKind::Ping) == state,
{
}

/// A message is answered with success exactly if it is allowed, and only `CLOSE` ends a connection.
pub proof fn law_close_alone_closes(state: ConnectionState, kind: MessageKind)
    ensures
        dispatch(state, kind) is Ok <==> allowed(state, kind),
        dispatch(state, kind) == Ok::<DispatchOutcome, DispatchError>(DispatchOutcome::Close)
            <==> allowed(state, kind) && kind == MessageKind::Close,
        dispatch(state, kind) == Ok::<DispatchOutcome, DispatchError>(DispatchOutcome::Continue)
            <==> allowed(state, kind) && kind != MessageKind::Close,
{
}

/// A client that greets, authenticates and attaches or resumes is attached, however often it pings
/// in between, and stays so until it closes.
pub proof fn law_handshake_attaches(trace: Seq<MessageKind>, kind: MessageKind)
    requires
        state_after(trace) == ConnectionState::AwaitHello,
    ensures
        ({
            let greeted = trace.push(MessageKind::Hello);
            let authed = greeted.push(MessageKind::Auth);
            &&& state_after(trace.push(MessageKind::Ping)) == ConnectionState::AwaitHello
            &&& state_after(greeted) == ConnectionState::AwaitAuth
            &&& state_after(authed) == ConnectionState::AwaitAttachOrResume
            &&& state_after(authed.push(MessageKind::Attach)) == ConnectionState::Attached
            &&& state_after(authed.push(MessageKind::Resume)) == ConnectionState::Attached
            &&& kind != MessageKind::Close ==> state_after(
                authed.push(MessageKind::Attach).push(kind),
            ) == ConnectionState::Attached
            &&& state_after(authed.push(MessageKind::Attach).push(MessageKind::Close))
                == ConnectionState::Closed
        }),
{
    let greeted = trace.push(MessageKind::Hello);
    let authed = greeted.push(MessageKind::Auth);
    let attached = authed.push(MessageKind::Attach);
    assert(trace.push(MessageKind::Ping).drop_last() =~= trace);
    assert(greeted.drop_last() =~= trace);
    assert(authed.drop_last() =~= greeted);
    assert(attached.drop_last() =~= authed);
    assert(authed.push(MessageKind::Resume).drop_last() =~= authed);
    assert(attached.push(kind).drop_last() =~= attached);
    assert(attached.push(MessageKind::Close).drop_last() =~= attached);
}

} // verus!
