//! Renewing the token of a running session over its local socket.

use crate::ids::Uuid;
use crate::json::{display_json, get_member, parse_json, text_value};
#[allow(unused_imports)]
use crate::json::{json_display, json_member, json_parse, json_text};
use crate::protocol::framing::{decode_frame, payload_length};
#[allow(unused_imports)]
use crate::protocol::framing::{prefix_value, unframe};
use crate::runtime::BootstrapOutput;
use crate::server::error::NeoshdError;
#[allow(unused_imports)]
use crate::server::state::{bootstraps, ServerView};
use crate::server::state::ServerState;
use crate::text::{concat, str_eq};
use crate::transport::quic::MAX_CONTROL_FRAME;
use vstd::prelude::*;

verus! {

/// A request for a new token.
#[derive(Debug)]
pub struct RenewRequest {
    pub session_id: Uuid,
    pub user: String,
}

/// Why a request for a new token is refused.
#[derive(Debug)]
pub enum RenewRefusal {
    BadRequest(String),
    PeerMismatch,
    SessionMismatch,
    UserMismatch,
}

impl RenewRefusal {
    /// What the requester is told. It does not learn whether its account or the user was wrong.
    pub open spec fn text(self) -> Seq<char> {
        match self {
            RenewRefusal::BadRequest(why) => "bad request: "@ + why@,
            RenewRefusal::PeerMismatch => "permission denied"@,
            RenewRefusal::SessionMismatch => "session_id mismatch"@,
            RenewRefusal::UserMismatch => "permission denied"@,
        }
    }

    /// What the requester is told.
    pub fn message(&self) -> (m: String)
        ensures
            m@ == self.text(),
    {
        match self {
            RenewRefusal::BadRequest(why) => concat("bad request: ", why.as_str()),
            RenewRefusal::PeerMismatch => "permission denied".to_owned(),
            RenewRefusal::SessionMismatch => "session_id mismatch".to_owned(),
            RenewRefusal::UserMismatch => "permission denied".to_owned(),
        }
    }

    /// The reason that is logged, where one is.
    pub fn denial(&self) -> (reason: Option<&'static str>)
        ensures
            match self {
                RenewRefusal::PeerMismatch => reason matches Some(r) && r@ == "peer_uid_mismatch"@,
                RenewRefusal::UserMismatch => reason matches Some(r) && r@ == "user_mismatch"@,
                _ => reason is None,
            },
    {
        match self {
            RenewRefusal::PeerMismatch => Some("peer_uid_mismatch"),
            RenewRefusal::UserMismatch => Some("user_mismatch"),
            _ => None,
        }
    }
}

/// Whether a request is refused, and why.
pub open spec fn renew_refusal(
    server: ServerView,
    peer_uid: u32,
    request: Result<RenewRequest, String>,
) -> Option<RenewRefusal> {
    match request {
        Err(why) => Some(RenewRefusal::BadRequest(why)),
        Ok(r) => if peer_uid != server.owner_uid {
            Some(RenewRefusal::PeerMismatch)
        } else if r.session_id != server.session_id {
            Some(RenewRefusal::SessionMismatch)
        } else if r.user@ != server.owner {
            Some(RenewRefusal::UserMismatch)
        } else {
            None
        },
    }
}

/// Issues a new token to the owner of the session, known by the account of the requesting process
/// and by name. A request that is refused changes nothing.
pub fn renew_auth(
    st: &mut ServerState,
    peer_uid: u32,
    request: Result<RenewRequest, String>,
) -> (outcome: Result<BootstrapOutput, RenewRefusal>)
    ensures
        match outcome {
            Ok(output) => {
                &&& renew_refusal(old(st)@, peer_uid, request) is None
                &&& bootstraps(old(st)@, final(st)@, output)
            },
            Err(e) => {
                &&& renew_refusal(old(st)@, peer_uid, request) == Some(e)
                &&& final(st)@ == old(st)@
            },
        },
{
    match request {
        Err(why) => Err(RenewRefusal::BadRequest(why)),
        Ok(req) => if peer_uid != st.owner_uid {
            Err(RenewRefusal::PeerMismatch)
        } else if req.session_id != st.session_id {
            Err(RenewRefusal::SessionMismatch)
        } else if !str_eq(req.user.as_str(), st.owner_user.as_str()) {
            Err(RenewRefusal::UserMismatch)
        } else {
            Ok(st.bootstrap_output())
        },
    }
}

/// What the answer to a request for a new token means to the requester: the document to hand on,
/// or what went wrong.
pub open spec fn renewal_answer(buf: Seq<u8>) -> Result<serde_json::Value, Seq<char>> {
    match json_parse(buf) {
        Err(why) => Err("invalid IPC response: "@ + why),
        Ok(value) => answer_of(value),
    }
}

/// What a document that answers such a request means: it is an error if it has a member `error`.
pub open spec fn answer_of(value: serde_json::Value) -> Result<serde_json::Value, Seq<char>> {
    if json_member(value, "error"@) is Some {
        Err(json_display(value))
    } else {
        Ok(value)
    }
}

/// Reads the answer to a request for a new token.
pub fn read_renewal(buf: &[u8]) -> (answer: Result<serde_json::Value, NeoshdError>)
    ensures
        match answer {
            Ok(value) => renewal_answer(buf@) == Ok::<serde_json::Value, Seq<char>>(value),
            Err(e) => e matches NeoshdError::Internal(m) && renewal_answer(buf@) == Err::<
                serde_json::Value,
                Seq<char>,
            >(m@),
        },
{
    match parse_json(buf) {
        Err(why) => Err(NeoshdError::Internal(concat("invalid IPC response: ", why.as_str()))),
        Ok(value) => accept_renewal(value),
    }
}

/// Reads a document that answers a request for a new token.
pub fn accept_renewal(value: serde_json::Value) -> (answer: Result<serde_json::Value, NeoshdError>)
    ensures
        match answer {
            Ok(v) => answer_of(value) == Ok::<serde_json::Value, Seq<char>>(v),
            Err(e) => e matches NeoshdError::Internal(m) && answer_of(value) == Err::<
                serde_json::Value,
                Seq<char>,
            >(m@),
        },
{
    if get_member(&value, "error").is_some() {
        Err(NeoshdError::Internal(display_json(&value)))
    } else {
        Ok(value)
    }
}

/// The nonce that a `PONG` sends back: the member `nonce` of the `PING`, or an empty text.
pub open spec fn nonce_of(payload: Seq<u8>) -> serde_json::Value {
    match json_parse(payload) {
        Ok(value) => match json_member(value, "nonce"@) {
            Some(nonce) => nonce,
            None => json_text(""@),
        },
        Err(_) => json_text(""@),
    }
}

/// The nonce that a `PONG` sends back.
pub fn ping_nonce(payload: &[u8]) -> (nonce: serde_json::Value)
    ensures
        nonce == nonce_of(payload@),
{
    match parse_json(payload) {
        Ok(value) => match get_member(&value, "nonce") {
            Some(nonce) => nonce,
            None => text_value(""),
        },
        Err(_) => text_value(""),
    }
}

/// How many payload bytes follow the length of a control frame, if not too many do.
pub fn control_payload_length(prefix: &[u8; 4]) -> (n: Result<usize, NeoshdError>)
    ensures
        match n {
            Ok(len) => len == prefix_value(prefix@) && len <= MAX_CONTROL_FRAME,
            Err(e) => {
                &&& prefix_value(prefix@) > MAX_CONTROL_FRAME
                &&& e matches NeoshdError::Protocol(m) && m@ == "control frame too large"@
            },
        },
{
    let n: u32 = payload_length(prefix.as_slice());
    if n > 65536 {
        Err(NeoshdError::Protocol("control frame too large".to_owned()))
    } else {
        Ok(n as usize)
    }
}

/// What a control frame carries, from its length and its payload as they were read.
pub open spec fn control_payload(prefix: Seq<u8>, payload: Seq<u8>) -> Result<Seq<u8>, Seq<char>> {
    match unframe(prefix + payload, MAX_CONTROL_FRAME as nat) {
        Ok(p) => Ok(p),
        Err(e) => Err("decode frame failed: "@ + e.text()),
    }
}

/// Puts a control frame together again and takes its payload out.
pub fn decode_control_frame(prefix: &[u8; 4], payload: &[u8]) -> (read: Result<Vec<u8>, NeoshdError>)
    ensures
        match read {
            Ok(p) => control_payload(prefix@, payload@) == Ok::<Seq<u8>, Seq<char>>(p@),
            Err(e) => e matches NeoshdError::Protocol(m) && control_payload(prefix@, payload@)
                == Err::<Seq<u8>, Seq<char>>(m@),
        },
{
    let mut whole: Vec<u8> = Vec::new();
    whole.extend_from_slice(prefix.as_slice());
    whole.extend_from_slice(payload);
    assert(whole@ =~= prefix@ + payload@);
    match decode_frame(whole.as_slice(), MAX_CONTROL_FRAME) {
        Ok(p) => {
            let mut out: Vec<u8> = Vec::new();
            out.extend_from_slice(p);
            assert(out@ =~= p@);
            Ok(out)
        },
        Err(e) => Err(
            NeoshdError::Protocol(concat("decode frame failed: ", e.message().as_str())),
        ),
    }
}

/// A frame of the announced length carries exactly the bytes that were read for it.
pub proof fn law_announced_frames_are_read(prefix: Seq<u8>, payload: Seq<u8>)
    requires
        prefix.len() == 4,
        payload.len() == prefix_value(prefix),
        payload.len() <= MAX_CONTROL_FRAME,
    ensures
        control_payload(prefix, payload) == Ok::<Seq<u8>, Seq<char>>(payload),
{
    let whole = prefix + payload;
    assert(prefix_value(whole) == prefix_value(prefix));
    assert(whole.skip(4) =~= payload);
}

/// A new token is issued exactly if the request can be read and comes from the account of the owner,
/// for the session of the server, in the name of the owner. What is wrong is looked for in this
/// order, and whether it was the account or the name cannot be told from the answer.
pub proof fn law_who_may_renew(
    server: ServerView,
    peer_uid: u32,
    request: RenewRequest,
    why: String,
)
    ensures
        ({
            let refusal = renew_refusal(server, peer_uid, Ok(request));
            let account = peer_uid == server.owner_uid;
            let session = request.session_id == server.session_id;
            let name = request.user@ == server.owner;
            &&& refusal is None <==> account && session && name
            &&& !account ==> refusal == Some(RenewRefusal::PeerMismatch)
            &&& account && !session ==> refusal == Some(RenewRefusal::SessionMismatch)
            &&& account && session && !name ==> refusal == Some(RenewRefusal::UserMismatch)
        }),
        renew_refusal(server, peer_uid, Err(why)) == Some(RenewRefusal::BadRequest(why)),
        RenewRefusal::PeerMismatch.text() == "permission denied"@,
        RenewRefusal::UserMismatch.text() == "permission denied"@,
        RenewRefusal::SessionMismatch.text() == "session_id mismatch"@,
        RenewRefusal::BadRequest(why).text() == "bad request: "@ + why@,
{
}

/// A document that answers a request for a new token is handed on as it is, unless it has a member
/// `error`, whatever that holds.
pub proof fn law_renewals_are_handed_on(buf: Seq<u8>, value: serde_json::Value, why: Seq<char>)
    ensures
        answer_of(value) is Err <==> json_member(value, "error"@) is Some,
        answer_of(value) matches Ok(v) ==> v == value,
        answer_of(value) matches Err(e) ==> e == json_display(value),
        json_parse(buf) == Ok::<serde_json::Value, Seq<char>>(value) ==> renewal_answer(buf)
            == answer_of(value),
        json_parse(buf) == Err::<serde_json::Value, Seq<char>>(why) ==> renewal_answer(buf) == Err::<
            serde_json::Value,
            Seq<char>,
        >("invalid IPC response: "@ + why),
{
}

/// A `PONG` gives back the nonce of the `PING`, whatever kind of document it is; without one, it
/// gives back an empty text.
pub proof fn law_nonce_is_given_back(payload: Seq<u8>, ping: serde_json::Value)
    ensures
        json_parse(payload) == Ok::<serde_json::Value, Seq<char>>(ping) && json_member(
            ping,
            "nonce"@,
        ) is Some ==> Some(nonce_of(payload)) == json_member(ping, "nonce"@),
        json_parse(payload) == Ok::<serde_json::Value, Seq<char>>(ping) && json_member(
            ping,
            "nonce"@,
        ) is None ==> nonce_of(payload) == json_text(""@),
        json_parse(payload) is Err ==> nonce_of(payload) == json_text(""@),
{
}

/// A control frame of which more or fewer bytes were read than were announced, or that announces
/// more than 65536, carries nothing.
pub proof fn law_broken_frames_are_refused(prefix: Seq<u8>, payload: Seq<u8>)
    requires
        prefix.len() == 4,
    ensures
        ({
            let announced = prefix[0] * 16777216 + prefix[1] * 65536 + prefix[2] * 256 + prefix[3];
            &&& control_payload(prefix, payload) is Ok <==> announced == payload.len()
                && payload.len() <= 65536
            &&& control_payload(prefix, payload) matches Ok(p) ==> p == payload
            &&& announced > 65536 ==> control_payload(prefix, payload) == Err::<Seq<u8>, Seq<char>>(
                "decode frame failed: "@ + "frame too large"@,
            )
        }),
{
    assert((prefix + payload).skip(4) =~= payload);
}

} // verus!
