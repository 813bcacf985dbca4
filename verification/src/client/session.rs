//! The control messages of a client, from the first one to the end of its session.

use crate::client::answers::{AuthOk, ResumeOk, ServerFrame};
#[allow(unused_imports)]
use crate::client::answers::{
    auth_ok_of, is_auth_reading, is_resume_reading, is_understood, resume_ok_of, says_auth_ok,
    says_resume_ok, AuthOkView,
};
use crate::client::cache::SessionCacheEntry;
#[allow(unused_imports)]
use crate::client::cache::EntryView;
use crate::client::error::CliError;
#[allow(unused_imports)]
use crate::client::quic_client::shown_fingerprint;
use crate::client::quic_client::{verify_peer_fingerprint, QuicClientError};
#[allow(unused_imports)]
use crate::client::state::next_state;
use crate::client::state::{transition, ClientEvent, ClientState};
use crate::ids::Uuid;
use crate::json::{display_json, get_str};
#[allow(unused_imports)]
use crate::json::{json_display, json_str};
#[allow(unused_imports)]
use crate::text::texts;
use crate::text::{concat, str_eq};
use vstd::prelude::*;

verus! {

/// How many seconds pass between two `PING` messages of a client.
pub const KEEPALIVE_SECONDS: u64 = 15;

/// How a client joins its session.
#[derive(Debug)]
pub enum SessionMode {
    Attach,
    Resume { session_id: Uuid, resume_token: String },
}

/// A message to the server.
#[derive(Debug)]
pub enum ClientMessage {
    Hello { capabilities: Vec<String> },
    Auth { token: String, client_id: Uuid },
    Attach { session_id: Uuid },
    Resume { session_id: Uuid, resume_token: String, client_id: Uuid },
    Detach,
    Close,
}

/// What to do after a message from the server.
#[derive(Debug)]
pub enum HandshakeStep {
    /// Send the message and wait for the next one.
    Send(ClientMessage),
    /// Remember the session, send the message and wait for the next one.
    RememberAndSend { entry: SessionCacheEntry, message: ClientMessage },
    /// The session is attached: start the terminal.
    Ready { session_id: Uuid },
    /// Give up, forgetting a session that has expired.
    Fail { error: CliError, forget: Option<Uuid> },
}

/// The way of a client to its session.
#[derive(Debug)]
pub struct Handshake {
    state: ClientState,
    mode: SessionMode,
    auth_token: String,
    target: String,
    quic_addr: String,
    cert_fingerprint: String,
    client_id: Uuid,
    session_id: Uuid,
}

/// How far a client has come, and what it needs to go on.
#[verifier::ext_equal]
pub struct HandshakeView {
    pub state: ClientState,
    pub mode: ModeView,
    pub auth_token: Seq<char>,
    pub target: Seq<char>,
    pub quic_addr: Seq<char>,
    pub cert_fingerprint: Seq<char>,
    pub client_id: Uuid,
    pub session_id: Uuid,
}

/// How a client joins its session, with the token as a sequence of characters.
#[verifier::ext_equal]
pub enum ModeView {
    Attach,
    Resume { session_id: Uuid, resume_token: Seq<char> },
}

impl View for SessionMode {
    type V = ModeView;

    open spec fn view(&self) -> ModeView {
        match self {
            SessionMode::Attach => ModeView::Attach,
            SessionMode::Resume { session_id, resume_token } => ModeView::Resume {
                session_id: *session_id,
                resume_token: resume_token@,
            },
        }
    }
}

impl View for Handshake {
    type V = HandshakeView;

    closed spec fn view(&self) -> HandshakeView {
        HandshakeView {
            state: self.state,
            mode: self.mode@,
            auth_token: self.auth_token@,
            target: self.target@,
            quic_addr: self.quic_addr@,
            cert_fingerprint: self.cert_fingerprint@,
            client_id: self.client_id,
            session_id: self.session_id,
        }
    }
}

/// What the client is capable of.
pub open spec fn client_capabilities() -> Seq<Seq<char>> {
    seq!["stdin-bytes"@, "resume-v1"@, "client-id-v1"@]
}

/// Whether a message has this `type`.
pub open spec fn has_type(value: serde_json::Value, name: Seq<char>) -> bool {
    json_str(value, "type"@) == Some(name)
}

/// Whether a message has this error code.
pub open spec fn has_code(value: serde_json::Value, code: Seq<char>) -> bool {
    json_str(value, "code"@) == Some(code)
}

/// Whether a message has this `type`.
pub fn is_type(value: &serde_json::Value, name: &str) -> (yes: bool)
    ensures
        yes == has_type(*value, name@),
{
    match get_str(value, "type") {
        Some(found) => str_eq(found, name),
        None => false,
    }
}

/// Whether a message has this error code.
pub fn is_error_code(value: &serde_json::Value, code: &str) -> (yes: bool)
    ensures
        yes == has_code(*value, code@),
{
    match get_str(value, "code") {
        Some(found) => str_eq(found, code),
        None => false,
    }
}

/// The client after an error.
pub open spec fn failed(h: HandshakeView) -> HandshakeView {
    HandshakeView { state: ClientState::Closed, ..h }
}

/// Whether a step gives up with this complaint, forgetting nothing.
pub open spec fn fails_with(step: HandshakeStep, m: Seq<char>) -> bool {
    step matches HandshakeStep::Fail { error, forget } && error.is_protocol(m) && forget is None
}

/// What the answer to `HELLO` does.
pub open spec fn hello_answered(
    h: HandshakeView,
    value: serde_json::Value,
    step: HandshakeStep,
    h2: HandshakeView,
) -> bool {
    if has_type(value, "HELLO_ACK"@) {
        &&& step matches HandshakeStep::Send(ClientMessage::Auth { token, client_id })
        &&& token@ == h.auth_token
        &&& client_id == h.client_id
        &&& h2 == (HandshakeView { state: ClientState::HelloDone, ..h })
    } else {
        &&& fails_with(step, "expected HELLO_ACK, got "@ + json_display(value))
        &&& h2 == failed(h)
    }
}

/// What is remembered of a session that `AUTH` was accepted for.
pub open spec fn remembered(h: HandshakeView, auth_ok: AuthOkView, now: u64) -> EntryView {
    EntryView {
        session_id: auth_ok.session_id,
        ssh_target: h.target,
        resume_token: auth_ok.resume_token,
        resume_token_expires_at: (now + auth_ok.resume_token_expires_in_seconds) as u64,
        quic_addr: h.quic_addr,
        cert_fingerprint: h.cert_fingerprint,
        updated_at: now,
    }
}

/// Whether this is the message with which the client joins the session.
pub open spec fn joins(message: ClientMessage, h: HandshakeView, session_id: Uuid) -> bool {
    match h.mode {
        ModeView::Attach => message == (ClientMessage::Attach { session_id }),
        ModeView::Resume { resume_token, .. } => {
            &&& message matches ClientMessage::Resume {
                session_id: id,
                resume_token: t,
                client_id,
            }
            &&& id == session_id
            &&& t@ == resume_token
            &&& client_id == h.client_id
        },
    }
}

/// What the answer to `AUTH` does.
pub open spec fn auth_answered(
    h: HandshakeView,
    value: serde_json::Value,
    now: u64,
    step: HandshakeStep,
    h2: HandshakeView,
) -> bool {
    if has_type(value, "ERROR"@) {
        &&& if has_code(value, "AUTH_FAILED"@) {
            step matches HandshakeStep::Fail { error, forget } && error is AuthFailed
                && forget is None
        } else {
            fails_with(step, "AUTH failed: "@ + json_display(value))
        }
        &&& h2 == failed(h)
    } else if !has_type(value, "AUTH_OK"@) {
        &&& fails_with(step, "expected AUTH_OK, got "@ + json_display(value))
        &&& h2 == failed(h)
    } else {
        match auth_ok_of(value) {
            Err(why) => fails_with(step, "bad AUTH_OK: "@ + why) && h2 == failed(h),
            Ok(auth_ok) => {
                &&& step matches HandshakeStep::RememberAndSend { entry, message }
                &&& entry@ == remembered(h, auth_ok, now)
                &&& joins(message, h, auth_ok.session_id)
                &&& h2 == (HandshakeView {
                    state: ClientState::Authenticated,
                    session_id: auth_ok.session_id,
                    ..h
                })
            },
        }
    }
}

/// What the answer to `ATTACH` or `RESUME` does.
pub open spec fn join_answered(
    h: HandshakeView,
    value: serde_json::Value,
    step: HandshakeStep,
    h2: HandshakeView,
) -> bool {
    let joined = step == (HandshakeStep::Ready { session_id: h.session_id }) && h2 == (
    HandshakeView { state: ClientState::Attached, ..h });
    match h.mode {
        ModeView::Attach => if has_type(value, "ATTACH_OK"@) {
            joined
        } else {
            &&& fails_with(step, "expected ATTACH_OK, got "@ + json_display(value))
            &&& h2 == failed(h)
        },
        ModeView::Resume { session_id, .. } => if has_type(value, "ERROR"@) {
            &&& step matches HandshakeStep::Fail { error, forget }
            &&& error.is_protocol("RESUME failed: "@ + json_display(value))
            &&& forget == if has_code(value, "SESSION_EXPIRED"@) {
                Some(session_id)
            } else {
                None
            }
            &&& h2 == failed(h)
        } else {
            match resume_ok_of(value) {
                Err(why) => fails_with(step, "bad RESUME_OK: "@ + why) && h2 == failed(h),
                Ok(_) => joined,
            }
        },
    }
}

/// Whether the client waits for a message of the handshake.
pub open spec fn is_waiting(h: HandshakeView) -> bool {
    ||| h.state == ClientState::Connected
    ||| h.state == ClientState::HelloDone
    ||| h.state == ClientState::Authenticated
}

/// What a message from the server does. A message that says something is understood as just that.
pub open spec fn answered(
    h: HandshakeView,
    value: serde_json::Value,
    now: u64,
    step: HandshakeStep,
    h2: HandshakeView,
) -> bool {
    &&& is_understood(value)
    &&& match h.state {
        ClientState::Connected => hello_answered(h, value, step, h2),
        ClientState::HelloDone => auth_answered(h, value, now, step, h2),
        _ => join_answered(h, value, step, h2),
    }
}

/// Whether a client is at the start of the way to its session.
pub open spec fn is_begun(
    h: HandshakeView,
    mode: ModeView,
    auth_token: Seq<char>,
    target: Seq<char>,
    quic_addr: Seq<char>,
    cert_fingerprint: Seq<char>,
    client_id: Uuid,
) -> bool {
    &&& h.state == ClientState::Connected
    &&& h.mode == mode
    &&& h.auth_token == auth_token
    &&& h.target == target
    &&& h.quic_addr == quic_addr
    &&& h.cert_fingerprint == cert_fingerprint
    &&& h.client_id == client_id
}

/// The message to send first.
pub fn hello_message() -> (message: ClientMessage)
    ensures
        message matches ClientMessage::Hello { capabilities } && texts(capabilities@)
            == client_capabilities(),
{
    let mut capabilities: Vec<String> = Vec::new();
    capabilities.push("stdin-bytes".to_owned());
    capabilities.push("resume-v1".to_owned());
    capabilities.push("client-id-v1".to_owned());
    assert(texts(capabilities@) =~= client_capabilities());
    ClientMessage::Hello { capabilities }
}

impl Handshake {
    /// Starts on a connection whose server shows these certificates, with the message to send
    /// first. There is no handshake with a server that has another fingerprint than the expected
    /// one, or none: nothing is sent to it, no token least of all.
    pub fn begin(
        certs: Option<&Vec<Vec<u8>>>,
        mode: SessionMode,
        auth_token: String,
        target: String,
        quic_addr: String,
        cert_fingerprint: String,
        client_id: Uuid,
    ) -> (begun: Result<(Handshake, ClientMessage), QuicClientError>)
        ensures
            match shown_fingerprint(
                match certs {
                    Some(chain) => Some(chain@),
                    None => None,
                },
            ) {
                None => begun matches Err(QuicClientError::MissingPeerCertificate),
                Some(actual) => if actual == cert_fingerprint@ {
                    &&& begun is Ok
                    &&& is_begun(
                        begun->Ok_0.0@,
                        mode@,
                        auth_token@,
                        target@,
                        quic_addr@,
                        actual,
                        client_id,
                    )
                    &&& begun->Ok_0.1 matches ClientMessage::Hello { capabilities } && texts(
                        capabilities@,
                    ) == client_capabilities()
                } else {
                    begun matches Err(QuicClientError::FingerprintMismatch)
                },
            },
    {
        match verify_peer_fingerprint(certs, cert_fingerprint.as_str()) {
            Err(e) => Err(e),
            Ok(()) => {
                let handshake = Handshake {
                    state: ClientState::Connected,
                    mode,
                    auth_token,
                    target,
                    quic_addr,
                    cert_fingerprint,
                    client_id,
                    // Not used before `AUTH_OK` tells which session it is.
                    session_id: Uuid::from_u128(0),
                };
                Ok((handshake, hello_message()))
            },
        }
    }

    /// How far the client has come.
    pub fn state(&self) -> (state: ClientState)
        ensures
            state == self@.state,
    {
        self.state
    }

    /// Handles a message from the server at a time given in seconds since the start of 1970.
    pub fn on_frame(&mut self, frame: ServerFrame, now: u64) -> (step: HandshakeStep)
        requires
            is_waiting(old(self)@),
            frame.lifetime() matches Some(secs) ==> now + secs <= u64::MAX,
        ensures
            answered(old(self)@, frame@, now, step, final(self)@),
    {
        let (value, auth_ok, resume_ok) = frame.into_parts();
        match self.state {
            ClientState::Connected => self.on_hello_answer(value),
            ClientState::HelloDone => self.on_auth_answer(value, auth_ok, now),
            _ => self.on_join_answer(value, resume_ok),
        }
    }

    /// Moves on with an event that the state admits.
    fn advance(&mut self, event: ClientEvent)
        requires
            next_state(old(self)@.state, event) is Some,
        ensures
            final(self)@ == (HandshakeView {
                state: next_state(old(self)@.state, event)->0,
                ..old(self)@
            }),
    {
        if let Ok(next) = transition(self.state, event) {
            self.state = next;
        }
    }

    /// Gives up with a complaint.
    fn give_up(&mut self, complaint: String) -> (step: HandshakeStep)
        ensures
            fails_with(step, complaint@),
            final(self)@ == failed(old(self)@),
    {
        self.advance(ClientEvent::Error);
        HandshakeStep::Fail { error: CliError::Protocol(complaint), forget: None }
    }

    fn on_hello_answer(&mut self, value: serde_json::Value) -> (step: HandshakeStep)
        requires
            old(self)@.state == ClientState::Connected,
        ensures
            hello_answered(old(self)@, value, step, final(self)@),
    {
        if !is_type(&value, "HELLO_ACK") {
            return self.give_up(
                concat("expected HELLO_ACK, got ", display_json(&value).as_str()),
            );
        }
        self.advance(ClientEvent::HelloAck);
        HandshakeStep::Send(
            ClientMessage::Auth { token: self.auth_token.clone(), client_id: self.client_id },
        )
    }

    fn on_auth_answer(
        &mut self,
        value: serde_json::Value,
        read: Result<AuthOk, String>,
        now: u64,
    ) -> (step: HandshakeStep)
        requires
            old(self)@.state == ClientState::HelloDone,
            is_auth_reading(read, auth_ok_of(value)),
            read matches Ok(a) ==> now + a.resume_token_expires_in_seconds <= u64::MAX,
        ensures
            auth_answered(old(self)@, value, now, step, final(self)@),
    {
        if is_type(&value, "ERROR") {
            if is_error_code(&value, "AUTH_FAILED") {
                self.advance(ClientEvent::Error);
                return HandshakeStep::Fail { error: CliError::AuthFailed, forget: None };
            }
            return self.give_up(concat("AUTH failed: ", display_json(&value).as_str()));
        }
        if !is_type(&value, "AUTH_OK") {
            return self.give_up(
                concat("expected AUTH_OK, got ", display_json(&value).as_str()),
            );
        }
        let auth_ok = match read {
            Ok(a) => a,
            Err(why) => {
                return self.give_up(concat("bad AUTH_OK: ", why.as_str()));
            },
        };
        let session_id = auth_ok.session_id;
        let entry = SessionCacheEntry {
            session_id,
            ssh_target: self.target.clone(),
            resume_token: auth_ok.resume_token,
            resume_token_expires_at: now + auth_ok.resume_token_expires_in_seconds,
            quic_addr: self.quic_addr.clone(),
            cert_fingerprint: self.cert_fingerprint.clone(),
            updated_at: now,
        };
        self.advance(ClientEvent::AuthOk);
        self.session_id = session_id;
        let message = match &self.mode {
            SessionMode::Attach => ClientMessage::Attach { session_id },
            SessionMode::Resume { resume_token, .. } => ClientMessage::Resume {
                session_id,
                resume_token: resume_token.clone(),
                client_id: self.client_id,
            },
        };
        HandshakeStep::RememberAndSend { entry, message }
    }

    fn on_join_answer(
        &mut self,
        value: serde_json::Value,
        read: Result<ResumeOk, String>,
    ) -> (step: HandshakeStep)
        requires
            old(self)@.state == ClientState::Authenticated,
            is_resume_reading(read, resume_ok_of(value)),
        ensures
            join_answered(old(self)@, value, step, final(self)@),
    {
        let resuming = match &self.mode {
            SessionMode::Attach => None,
            SessionMode::Resume { session_id, .. } => Some(*session_id),
        };
        match resuming {
            None => {
                if !is_type(&value, "ATTACH_OK") {
                    return self.give_up(
                        concat("expected ATTACH_OK, got ", display_json(&value).as_str()),
                    );
                }
                self.advance(ClientEvent::AttachOk);
            },
            Some(cached) => {
                if is_type(&value, "ERROR") {
                    let forget = if is_error_code(&value, "SESSION_EXPIRED") {
                        Some(cached)
                    } else {
                        None
                    };
                    self.advance(ClientEvent::Error);
                    return HandshakeStep::Fail {
                        error: CliError::Protocol(
                            concat("RESUME failed: ", display_json(&value).as_str()),
                        ),
                        forget,
                    };
                }
                if let Err(why) = read {
                    return self.give_up(concat("bad RESUME_OK: ", why.as_str()));
                }
                self.advance(ClientEvent::ResumeOk);
            },
        }
        HandshakeStep::Ready { session_id: self.session_id }
    }
}

/// A client that got its session has gone through every state of the handshake, in order: a message
/// moves it on by one state, or ends it.
pub proof fn law_handshake_takes_every_step(
    h: HandshakeView,
    value: serde_json::Value,
    now: u64,
    step: HandshakeStep,
    h2: HandshakeView,
)
    requires
        is_waiting(h),
        answered(h, value, now, step, h2),
    ensures
        step is Fail <==> h2.state == ClientState::Closed,
        step is Ready <==> h2.state == ClientState::Attached,
        step is Ready ==> h.state == ClientState::Authenticated,
        h2.state != ClientState::Closed ==> crate::client::state::progress(h2.state)
            == crate::client::state::progress(h.state) + 1,
{
}

/// The token that authenticates the client is sent only after the server has greeted it, and the
/// token that resumes the session only after the client has authenticated.
pub proof fn law_tokens_are_sent_in_order(
    h: HandshakeView,
    value: serde_json::Value,
    now: u64,
    step: HandshakeStep,
    h2: HandshakeView,
)
    requires
        is_waiting(h),
        answered(h, value, now, step, h2),
    ensures
        step is Send ==> has_type(value, "HELLO_ACK"@) && h.state == ClientState::Connected,
        step is RememberAndSend ==> has_type(value, "AUTH_OK"@) && h.state
            == ClientState::HelloDone,
{
}

/// The token that authenticates a client is never remembered: what is remembered of a session is
/// the same whichever token was sent.
pub proof fn law_auth_token_is_not_remembered(
    h: HandshakeView,
    other_token: Seq<char>,
    auth_ok: AuthOkView,
    now: u64,
)
    ensures
        remembered(h, auth_ok, now) == remembered(
            HandshakeView { auth_token: other_token, ..h },
            auth_ok,
            now,
        ),
{
}

/// What ends a session that is attached.
#[derive(Debug)]
pub enum ControlSignal {
    Detach,
    Close,
    Error(serde_json::Value),
    Disconnected,
    StreamClosed,
}

/// How a session ends: what to send last, whether to forget the session, and with what result.
#[derive(Debug)]
pub struct SessionEnd {
    pub last_message: Option<ClientMessage>,
    pub forget: bool,
    pub result: Result<(), CliError>,
}

/// Whether this is how a session ends: after a detachment it stays and is remembered, after a loss
/// of the connection it stays and can be resumed, and otherwise it is over and forgotten.
pub open spec fn is_end(end: SessionEnd, session_id: Uuid, signal: ControlSignal) -> bool {
    match signal {
        ControlSignal::Detach => {
            &&& end.last_message == Some(ClientMessage::Detach)
            &&& !end.forget
            &&& end.result is Ok
        },
        ControlSignal::Close => end.last_message is None && end.forget && end.result is Ok,
        ControlSignal::Error(value) => {
            &&& end.last_message is None
            &&& !end.forget
            &&& end.result matches Err(e) && e.is_protocol(
                "control error: "@ + json_display(value),
            )
        },
        ControlSignal::Disconnected => {
            &&& end.last_message is None
            &&& !end.forget
            &&& end.result matches Err(CliError::Disconnected(id)) && id == session_id
        },
        ControlSignal::StreamClosed => {
            &&& end.last_message == Some(ClientMessage::Close)
            &&& end.forget
            &&& end.result matches Err(CliError::Closed)
        },
    }
}

/// Decides how a session ends.
pub fn end_session(session_id: Uuid, signal: ControlSignal) -> (end: SessionEnd)
    ensures
        is_end(end, session_id, signal),
{
    match signal {
        ControlSignal::Detach => SessionEnd {
            last_message: Some(ClientMessage::Detach),
            forget: false,
            result: Ok(()),
        },
        ControlSignal::Close => SessionEnd { last_message: None, forget: true, result: Ok(()) },
        ControlSignal::Error(value) => SessionEnd {
            last_message: None,
            forget: false,
            result: Err(
                CliError::Protocol(concat("control error: ", display_json(&value).as_str())),
            ),
        },
        ControlSignal::Disconnected => SessionEnd {
            last_message: None,
            forget: false,
            result: Err(CliError::Disconnected(session_id)),
        },
        ControlSignal::StreamClosed => SessionEnd {
            last_message: Some(ClientMessage::Close),
            forget: true,
            result: Err(CliError::Closed),
        },
    }
}

/// What a message from the server means while the session is attached.
#[derive(Debug, Clone, Copy, PartialEq, Eq, Structural)]
pub enum Watched {
    Close,
    Error,
    Pong,
    Unknown,
}

/// What a message means while the session is attached.
pub open spec fn meaning(value: serde_json::Value) -> Watched {
    if has_type(value, "CLOSE"@) {
        Watched::Close
    } else if has_type(value, "ERROR"@) {
        Watched::Error
    } else if has_type(value, "PONG"@) {
        Watched::Pong
    } else {
        Watched::Unknown
    }
}

/// Decides what a message means while the session is attached.
pub fn classify_frame(value: &serde_json::Value) -> (watched: Watched)
    ensures
        watched == meaning(*value),
{
    if is_type(value, "CLOSE") {
        Watched::Close
    } else if is_type(value, "ERROR") {
        Watched::Error
    } else if is_type(value, "PONG") {
        Watched::Pong
    } else {
        Watched::Unknown
    }
}

/// A client that is greeted authenticates with its token and under its identifier; anything else
/// than a greeting ends the attempt.
pub proof fn law_greeted_client_authenticates(
    h: HandshakeView,
    value: serde_json::Value,
    now: u64,
    step: HandshakeStep,
    h2: HandshakeView,
)
    requires
        h.state == ClientState::Connected,
        answered(h, value, now, step, h2),
    ensures
        json_str(value, "type"@) == Some("HELLO_ACK"@) ==> {
            &&& step matches HandshakeStep::Send(ClientMessage::Auth { token, client_id })
            &&& token@ == h.auth_token
            &&& client_id == h.client_id
            &&& h2.state == ClientState::HelloDone
        },
        json_str(value, "type"@) != Some("HELLO_ACK"@) ==> step is Fail && step->forget is None
            && h2.state == ClientState::Closed,
        h2.mode == h.mode,
        h2.client_id == h.client_id,
        h2.target == h.target,
        h2.quic_addr == h.quic_addr,
        h2.cert_fingerprint == h.cert_fingerprint,
{
}

/// A client that is let in remembers the session that it is told of, with the token to resume it
/// and until when that lasts, the host, the address and the fingerprint; and it joins that session:
/// by attaching to it, or by resuming it with the token that it came with and under its identifier.
pub proof fn law_admitted_client_joins(
    h: HandshakeView,
    value: serde_json::Value,
    auth_ok: AuthOkView,
    now: u64,
    step: HandshakeStep,
    h2: HandshakeView,
)
    requires
        h.state == ClientState::HelloDone,
        json_str(value, "type"@) == Some("AUTH_OK"@),
        says_auth_ok(value, auth_ok),
        now + auth_ok.resume_token_expires_in_seconds <= u64::MAX,
        answered(h, value, now, step, h2),
    ensures
        step is RememberAndSend,
        ({
            let entry = step->entry@;
            let message = step->message;
            &&& entry.session_id == auth_ok.session_id
            &&& entry.resume_token == auth_ok.resume_token
            &&& entry.resume_token_expires_at == now + auth_ok.resume_token_expires_in_seconds
            &&& entry.updated_at == now
            &&& entry.ssh_target == h.target
            &&& entry.quic_addr == h.quic_addr
            &&& entry.cert_fingerprint == h.cert_fingerprint
            &&& h.mode is Attach ==> message == (ClientMessage::Attach {
                session_id: auth_ok.session_id,
            })
            &&& h.mode matches ModeView::Resume { resume_token: kept, .. } ==> {
                &&& message matches ClientMessage::Resume { session_id, resume_token, client_id }
                &&& session_id == auth_ok.session_id
                &&& resume_token@ == kept
                &&& client_id == h.client_id
            }
        }),
        h2.state == ClientState::Authenticated,
        h2.session_id == auth_ok.session_id,
        h2.mode == h.mode,
{
    reveal_strlit("AUTH_OK");
    reveal_strlit("ERROR");
    assert("AUTH_OK"@.len() != "ERROR"@.len());
}

/// A client that is not let in gives up, and says so plainly if the server says that its token was
/// refused; it remembers and forgets nothing.
pub proof fn law_refused_client_gives_up(
    h: HandshakeView,
    value: serde_json::Value,
    now: u64,
    step: HandshakeStep,
    h2: HandshakeView,
)
    requires
        h.state == ClientState::HelloDone,
        json_str(value, "type"@) != Some("AUTH_OK"@),
        answered(h, value, now, step, h2),
    ensures
        step is Fail,
        step->forget is None,
        step->error is AuthFailed <==> json_str(value, "type"@) == Some("ERROR"@) && json_str(
            value,
            "code"@,
        ) == Some("AUTH_FAILED"@),
        h2.state == ClientState::Closed,
{
}

/// A client that has joined is attached to the session that it was let in to. A session that is
/// over is forgotten when it cannot be resumed, and no other one is ever forgotten.
pub proof fn law_joined_client_is_attached(
    h: HandshakeView,
    value: serde_json::Value,
    resume_ok: ResumeOk,
    now: u64,
    step: HandshakeStep,
    h2: HandshakeView,
)
    requires
        h.state == ClientState::Authenticated,
        answered(h, value, now, step, h2),
    ensures
        h.mode is Attach ==> (step is Ready <==> json_str(value, "type"@) == Some("ATTACH_OK"@)),
        h.mode is Resume && json_str(value, "type"@) != Some("ERROR"@) && says_resume_ok(
            value,
            resume_ok,
        ) ==> step is Ready,
        h.mode is Resume && json_str(value, "type"@) == Some("ERROR"@) ==> step is Fail,
        step matches HandshakeStep::Ready { session_id } ==> session_id == h.session_id && h2.state
            == ClientState::Attached,
        step !is Ready ==> step is Fail && h2.state == ClientState::Closed,
        step is Fail && step->forget is Some <==> h.mode is Resume && json_str(value, "type"@)
            == Some("ERROR"@) && json_str(value, "code"@) == Some("SESSION_EXPIRED"@),
        step is Fail && step->forget is Some ==> step->forget == Some(h.mode->session_id),
{
}

/// How a session ends for its client. After a detachment it stays, and so it does when the
/// connection is lost or the server complains; it is forgotten exactly if it is over, because the
/// server closed it or its shell is gone. The server is told of a detachment and of the end of the
/// shell.
pub proof fn law_how_sessions_end(end: SessionEnd, session_id: Uuid, signal: ControlSignal)
    requires
        is_end(end, session_id, signal),
    ensures
        end.forget <==> signal is Close || signal is StreamClosed,
        end.result is Ok <==> signal is Detach || signal is Close,
        signal is Disconnected <==> end.result == Err::<(), CliError>(
            CliError::Disconnected(session_id),
        ),
        signal is StreamClosed <==> end.result == Err::<(), CliError>(CliError::Closed),
        signal is Detach <==> end.last_message == Some(ClientMessage::Detach),
        signal is StreamClosed <==> end.last_message == Some(ClientMessage::Close),
        signal is Close || signal is Error || signal is Disconnected ==> end.last_message is None,
{
}

/// What a message means while attached is told by its type alone.
pub proof fn law_messages_while_attached(value: serde_json::Value)
    ensures
        meaning(value) is Close <==> json_str(value, "type"@) == Some("CLOSE"@),
        meaning(value) is Error <==> json_str(value, "type"@) == Some("ERROR"@),
        meaning(value) is Pong <==> json_str(value, "type"@) == Some("PONG"@),
{
    reveal_strlit("CLOSE");
    reveal_strlit("ERROR");
    reveal_strlit("PONG");
    assert("CLOSE"@[0] == 'C' && "ERROR"@[0] == 'E' && "PONG"@[0] == 'P');
}

} // verus!
