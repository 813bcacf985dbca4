//! The documents that the client writes.

use crate::client::session::ClientMessage;
#[allow(unused_imports)]
use crate::document::{fields_of, has_fields, Field};
use crate::document::{document, Item};
use crate::ids::Uuid;
#[allow(unused_imports)]
use crate::ids::uuid_text;
#[allow(unused_imports)]
use crate::text::texts;
use crate::{CLIENT_VERSION, PROTOCOL_VERSION};
use vstd::prelude::*;

verus! {

/// The fields of a message.
pub open spec fn message_fields(message: ClientMessage) -> Seq<(Seq<char>, Field)> {
    match message {
        ClientMessage::Hello { capabilities } => seq![
            ("type"@, Field::Text("HELLO"@)),
            ("protocol_version"@, Field::Text(PROTOCOL_VERSION@)),
            ("client_version"@, Field::Text(CLIENT_VERSION@)),
            ("capabilities"@, Field::List(texts(capabilities@))),
        ],
        ClientMessage::Auth { token, client_id } => seq![
            ("type"@, Field::Text("AUTH"@)),
            ("method"@, Field::Text("ssh-token"@)),
            ("token"@, Field::Text(token@)),
            ("client_id"@, Field::Text(uuid_text(client_id.value))),
        ],
        ClientMessage::Attach { session_id } => seq![
            ("type"@, Field::Text("ATTACH"@)),
            ("session_id"@, Field::Text(uuid_text(session_id.value))),
            ("attach_mode"@, Field::Text("exclusive"@)),
        ],
        ClientMessage::Resume { session_id, resume_token, client_id } => seq![
            ("type"@, Field::Text("RESUME"@)),
            ("session_id"@, Field::Text(uuid_text(session_id.value))),
            ("resume_token"@, Field::Text(resume_token@)),
            ("client_id"@, Field::Text(uuid_text(client_id.value))),
        ],
        ClientMessage::Detach => seq![("type"@, Field::Text("DETACH"@))],
        ClientMessage::Close => seq![("type"@, Field::Text("CLOSE"@))],
    }
}

impl ClientMessage {
    /// The document that is sent.
    pub fn document(&self) -> (value: serde_json::Value)
        ensures
            has_fields(value, message_fields(*self)),
    {
        let mut items: Vec<(&'static str, Item)> = Vec::new();
        match self {
            ClientMessage::Hello { capabilities } => {
                items.push(("type", Item::Text("HELLO".to_owned())));
                items.push(("protocol_version", Item::Text(PROTOCOL_VERSION.to_owned())));
                items.push(("client_version", Item::Text(CLIENT_VERSION.to_owned())));
                items.push(("capabilities", Item::List(copy_texts(capabilities))));
            },
            ClientMessage::Auth { token, client_id } => {
                items.push(("type", Item::Text("AUTH".to_owned())));
                items.push(("method", Item::Text("ssh-token".to_owned())));
                items.push(("token", Item::Text(token.clone())));
                items.push(("client_id", Item::Text(client_id.to_text())));
            },
            ClientMessage::Attach { session_id } => {
                items.push(("type", Item::Text("ATTACH".to_owned())));
                items.push(("session_id", Item::Text(session_id.to_text())));
                items.push(("attach_mode", Item::Text("exclusive".to_owned())));
            },
            ClientMessage::Resume { session_id, resume_token, client_id } => {
                items.push(("type", Item::Text("RESUME".to_owned())));
                items.push(("session_id", Item::Text(session_id.to_text())));
                items.push(("resume_token", Item::Text(resume_token.clone())));
                items.push(("client_id", Item::Text(client_id.to_text())));
            },
            ClientMessage::Detach => {
                items.push(("type", Item::Text("DETACH".to_owned())));
            },
            ClientMessage::Close => {
                items.push(("type", Item::Text("CLOSE".to_owned())));
            },
        }
        assert(fields_of(items@) =~= message_fields(*self));
        document(items)
    }
}

/// A copy of texts.
fn copy_texts(list: &Vec<String>) -> (copy: Vec<String>)
    ensures
        texts(copy@) == texts(list@),
{
    let mut copy: Vec<String> = Vec::new();
    let mut i: usize = 0;
    while i < list.len()
        invariant
            i <= list@.len(),
            copy@.len() == i,
            forall|k: int| 0 <= k < i ==> (#[trigger] copy@[k])@ == list@[k]@,
        decreases list@.len() - i,
    {
        copy.push(list[i].clone());
        i += 1;
    }
    assert(texts(copy@) =~= texts(list@));
    copy
}

/// The fields of `RESIZE`.
pub open spec fn resize_fields(rows: u16, cols: u16) -> Seq<(Seq<char>, Field)> {
    seq![
        ("type"@, Field::Text("RESIZE"@)),
        ("rows"@, Field::Number(rows as u64)),
        ("cols"@, Field::Number(cols as u64)),
    ]
}

/// The document that tells the server the size of the terminal.
pub fn resize_document(rows: u16, cols: u16) -> (value: serde_json::Value)
    ensures
        has_fields(value, resize_fields(rows, cols)),
{
    let mut items: Vec<(&'static str, Item)> = Vec::new();
    items.push(("type", Item::Text("RESIZE".to_owned())));
    items.push(("rows", Item::Number(rows as u64)));
    items.push(("cols", Item::Number(cols as u64)));
    assert(fields_of(items@) =~= resize_fields(rows, cols));
    document(items)
}

/// The fields of `PING`.
pub open spec fn ping_fields(nonce: Seq<char>) -> Seq<(Seq<char>, Field)> {
    seq![("type"@, Field::Text("PING"@)), ("nonce"@, Field::Text(nonce))]
}

/// The document that asks the server for a sign of life.
pub fn ping_document(nonce: &str) -> (value: serde_json::Value)
    ensures
        has_fields(value, ping_fields(nonce@)),
{
    let mut items: Vec<(&'static str, Item)> = Vec::new();
    items.push(("type", Item::Text("PING".to_owned())));
    items.push(("nonce", Item::Text(nonce.to_owned())));
    assert(fields_of(items@) =~= ping_fields(nonce@));
    document(items)
}

/// The fields of a request to detach a session over its local socket.
pub open spec fn detach_fields(session_id: Uuid) -> Seq<(Seq<char>, Field)> {
    seq![
        ("type"@, Field::Text("DETACH"@)),
        ("session_id"@, Field::Text(uuid_text(session_id.value))),
    ]
}

/// The document that asks to detach a session over its local socket.
pub fn detach_document(session_id: Uuid) -> (value: serde_json::Value)
    ensures
        has_fields(value, detach_fields(session_id)),
{
    let mut items: Vec<(&'static str, Item)> = Vec::new();
    items.push(("type", Item::Text("DETACH".to_owned())));
    items.push(("session_id", Item::Text(session_id.to_text())));
    assert(fields_of(items@) =~= detach_fields(session_id));
    document(items)
}

/// The fields of the error that stands for a message that makes no sense while attached.
pub open spec fn unknown_fields(raw: serde_json::Value) -> Seq<(Seq<char>, Field)> {
    seq![
        ("type"@, Field::Text("ERROR"@)),
        ("code"@, Field::Text("PROTOCOL_ERROR"@)),
        ("message"@, Field::Text("unknown control message while attached"@)),
        ("raw"@, Field::Document(raw)),
    ]
}

/// The error that stands for a message that makes no sense while attached.
pub fn unknown_document(raw: serde_json::Value) -> (value: serde_json::Value)
    ensures
        has_fields(value, unknown_fields(raw)),
{
    let mut items: Vec<(&'static str, Item)> = Vec::new();
    items.push(("type", Item::Text("ERROR".to_owned())));
    items.push(("code", Item::Text("PROTOCOL_ERROR".to_owned())));
    items.push(("message", Item::Text("unknown control message while attached".to_owned())));
    items.push(("raw", Item::Document(raw)));
    assert(fields_of(items@) =~= unknown_fields(raw));
    document(items)
}

/// `HELLO` carries what the client is capable of, and the versions that it speaks.
pub proof fn law_hello_carries(capabilities: Vec<String>)
    ensures
        ({
            let fields = message_fields(ClientMessage::Hello { capabilities });
            &&& fields.len() == 4
            &&& fields.contains(("type"@, Field::Text("HELLO"@)))
            &&& fields.contains(("protocol_version"@, Field::Text(PROTOCOL_VERSION@)))
            &&& fields.contains(("client_version"@, Field::Text(CLIENT_VERSION@)))
            &&& fields.contains(("capabilities"@, Field::List(texts(capabilities@))))
        }),
{
    let fields = message_fields(ClientMessage::Hello { capabilities });
    assert(fields[0] == ("type"@, Field::Text("HELLO"@)));
    assert(fields[1] == ("protocol_version"@, Field::Text(PROTOCOL_VERSION@)));
    assert(fields[2] == ("client_version"@, Field::Text(CLIENT_VERSION@)));
    assert(fields[3] == ("capabilities"@, Field::List(texts(capabilities@))));
}

/// `AUTH` carries the token and the identifier of the client.
pub proof fn law_auth_carries(token: String, client_id: Uuid)
    ensures
        ({
            let fields = message_fields(ClientMessage::Auth { token, client_id });
            &&& fields.len() == 4
            &&& fields.contains(("type"@, Field::Text("AUTH"@)))
            &&& fields.contains(("method"@, Field::Text("ssh-token"@)))
            &&& fields.contains(("token"@, Field::Text(token@)))
            &&& fields.contains(("client_id"@, Field::Text(uuid_text(client_id.value))))
        }),
{
    let fields = message_fields(ClientMessage::Auth { token, client_id });
    assert(fields[0] == ("type"@, Field::Text("AUTH"@)));
    assert(fields[1] == ("method"@, Field::Text("ssh-token"@)));
    assert(fields[2] == ("token"@, Field::Text(token@)));
    assert(fields[3] == ("client_id"@, Field::Text(uuid_text(client_id.value))));
}

/// `ATTACH` carries the session.
pub proof fn law_attach_carries(session_id: Uuid)
    ensures
        ({
            let fields = message_fields(ClientMessage::Attach { session_id });
            &&& fields.len() == 3
            &&& fields.contains(("type"@, Field::Text("ATTACH"@)))
            &&& fields.contains(("session_id"@, Field::Text(uuid_text(session_id.value))))
            &&& fields.contains(("attach_mode"@, Field::Text("exclusive"@)))
        }),
{
    let fields = message_fields(ClientMessage::Attach { session_id });
    assert(fields[0] == ("type"@, Field::Text("ATTACH"@)));
    assert(fields[1] == ("session_id"@, Field::Text(uuid_text(session_id.value))));
    assert(fields[2] == ("attach_mode"@, Field::Text("exclusive"@)));
}

/// `RESUME` carries the session, the token to resume it with and the identifier of the client.
pub proof fn law_resume_carries(session_id: Uuid, resume_token: String, client_id: Uuid)
    ensures
        ({
            let fields = message_fields(ClientMessage::Resume { session_id, resume_token, client_id });
            &&& fields.len() == 4
            &&& fields.contains(("type"@, Field::Text("RESUME"@)))
            &&& fields.contains(("session_id"@, Field::Text(uuid_text(session_id.value))))
            &&& fields.contains(("resume_token"@, Field::Text(resume_token@)))
            &&& fields.contains(("client_id"@, Field::Text(uuid_text(client_id.value))))
        }),
{
    let fields = message_fields(ClientMessage::Resume { session_id, resume_token, client_id });
    assert(fields[0] == ("type"@, Field::Text("RESUME"@)));
    assert(fields[1] == ("session_id"@, Field::Text(uuid_text(session_id.value))));
    assert(fields[2] == ("resume_token"@, Field::Text(resume_token@)));
    assert(fields[3] == ("client_id"@, Field::Text(uuid_text(client_id.value))));
}

/// `DETACH` and `CLOSE` carry nothing but their type, `RESIZE` the size and `PING` the nonce; and a
/// request to detach over the local socket carries the session.
pub proof fn law_short_messages_carry(rows: u16, cols: u16, nonce: Seq<char>, session_id: Uuid)
    ensures
        message_fields(ClientMessage::Detach) == seq![("type"@, Field::Text("DETACH"@))],
        message_fields(ClientMessage::Close) == seq![("type"@, Field::Text("CLOSE"@))],
        resize_fields(rows, cols) == seq![
            ("type"@, Field::Text("RESIZE"@)),
            ("rows"@, Field::Number(rows as u64)),
            ("cols"@, Field::Number(cols as u64)),
        ],
        ping_fields(nonce) == seq![
            ("type"@, Field::Text("PING"@)),
            ("nonce"@, Field::Text(nonce)),
        ],
        detach_fields(session_id) == seq![
            ("type"@, Field::Text("DETACH"@)),
            ("session_id"@, Field::Text(uuid_text(session_id.value))),
        ],
{
}

/// A message that makes no sense while attached stands for an error, and is told as it came.
pub proof fn law_unknown_messages_are_told(raw: serde_json::Value)
    ensures
        unknown_fields(raw) == seq![
            ("type"@, Field::Text("ERROR"@)),
            ("code"@, Field::Text("PROTOCOL_ERROR"@)),
            ("message"@, Field::Text("unknown control message while attached"@)),
            ("raw"@, Field::Document(raw)),
        ],
{
}

} // verus!
