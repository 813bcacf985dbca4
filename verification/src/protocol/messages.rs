//! The kinds of control messages.

use crate::fields::{read_record, text_field};
#[allow(unused_imports)]
use crate::fields::{
    find_member, is_text_of, keys_of, lemma_find_listed, raw_field, raw_fields, record_of,
    text_field_of, written_field,
};
#[allow(unused_imports)]
use crate::json::{
    are_plain_members, compact, json_member, json_str, lists_members, object_bytes, spells,
};
use crate::text::str_eq;
use vstd::prelude::*;

verus! {

/// What a control message is about.
#[derive(Debug, Clone, Copy, PartialEq, Eq, Structural)]
pub enum MessageKind {
    Hello,
    Auth,
    Attach,
    Resume,
    Resize,
    Detach,
    Close,
    Ping,
    Pong,
    Error,
}

/// The part of a control message that every kind of message has.
#[derive(Debug)]
pub struct ControlEnvelope {
    pub msg_type: String,
}

/// An `ERROR` message.
#[derive(Debug)]
pub struct ErrorMessage {
    pub msg_type: &'static str,
    pub code: &'static str,
    pub message: String,
    pub retryable: bool,
}

/// The `type` that a message of this kind carries.
pub open spec fn wire_name(kind: MessageKind) -> Seq<char> {
    match kind {
        MessageKind::Hello => "HELLO"@,
        MessageKind::Auth => "AUTH"@,
        MessageKind::Attach => "ATTACH"@,
        MessageKind::Resume => "RESUME"@,
        MessageKind::Resize => "RESIZE"@,
        MessageKind::Detach => "DETACH"@,
        MessageKind::Close => "CLOSE"@,
        MessageKind::Ping => "PING"@,
        MessageKind::Pong => "PONG"@,
        MessageKind::Error => "ERROR"@,
    }
}

/// The kind whose messages carry this `type`, if there is one.
pub open spec fn kind_named(name: Seq<char>) -> Option<MessageKind> {
    if exists|kind: MessageKind| #[trigger] wire_name(kind) == name {
        Some(choose|kind: MessageKind| #[trigger] wire_name(kind) == name)
    } else {
        None
    }
}

/// The kind of the message in a payload: a record whose only field, the text `type`, names it.
pub open spec fn message_kind(payload: Seq<u8>) -> Option<MessageKind> {
    match record_of(payload, seq!["type"@]) {
        Ok(fields) => match text_field_of(fields[0], "type"@) {
            Ok(name) => kind_named(name),
            Err(_) => None,
        },
        Err(_) => None,
    }
}

/// The kind of a message: its string member `type` names it.
pub open spec fn document_kind(value: serde_json::Value) -> Option<MessageKind> {
    match json_str(value, "type"@) {
        Some(name) => kind_named(name),
        None => None,
    }
}

/// No two kinds share a `type`.
pub proof fn lemma_wire_names_distinct(a: MessageKind, b: MessageKind)
    requires
        wire_name(a) == wire_name(b),
    ensures
        a == b,
{
    reveal_strlit("HELLO");
    reveal_strlit("AUTH");
    reveal_strlit("ATTACH");
    reveal_strlit("RESUME");
    reveal_strlit("RESIZE");
    reveal_strlit("DETACH");
    reveal_strlit("CLOSE");
    reveal_strlit("PING");
    reveal_strlit("PONG");
    reveal_strlit("ERROR");
    assert("HELLO"@.len() == 5 && "CLOSE"@.len() == 5 && "ERROR"@.len() == 5);
    assert("AUTH"@.len() == 4 && "PING"@.len() == 4 && "PONG"@.len() == 4);
    assert("ATTACH"@.len() == 6 && "DETACH"@.len() == 6);
    assert("RESUME"@.len() == 6 && "RESIZE"@.len() == 6);
    assert("HELLO"@[0] == 'H' && "CLOSE"@[0] == 'C' && "ERROR"@[0] == 'E');
    assert("AUTH"@[0] == 'A' && "PING"@[0] == 'P' && "PONG"@[0] == 'P');
    assert("PING"@[1] == 'I' && "PONG"@[1] == 'O');
    assert("ATTACH"@[0] == 'A' && "DETACH"@[0] == 'D' && "RESUME"@[0] == 'R' && "RESIZE"@[0] == 'R');
    assert("RESUME"@[3] == 'U' && "RESIZE"@[3] == 'I');
}

/// Every kind is found again by its `type`.
pub proof fn law_kind_round_trip(kind: MessageKind)
    ensures
        kind_named(wire_name(kind)) == Some(kind),
{
    let found = choose|k: MessageKind| #[trigger] wire_name(k) == wire_name(kind);
    lemma_wire_names_distinct(found, kind);
}

impl ControlEnvelope {
    /// The kind of the message, if its `type` is known.
    pub fn kind(&self) -> (kind: Option<MessageKind>)
        ensures
            kind == kind_named(self.msg_type@),
    {
        named_kind(self.msg_type.as_str())
    }
}

/// The kind whose messages carry this `type`.
pub fn named_kind(name: &str) -> (kind: Option<MessageKind>)
    ensures
        kind == kind_named(name@),
{
    let kind = if str_eq(name, "HELLO") {
        MessageKind::Hello
    } else if str_eq(name, "AUTH") {
        MessageKind::Auth
    } else if str_eq(name, "ATTACH") {
        MessageKind::Attach
    } else if str_eq(name, "RESUME") {
        MessageKind::Resume
    } else if str_eq(name, "RESIZE") {
        MessageKind::Resize
    } else if str_eq(name, "DETACH") {
        MessageKind::Detach
    } else if str_eq(name, "CLOSE") {
        MessageKind::Close
    } else if str_eq(name, "PING") {
        MessageKind::Ping
    } else if str_eq(name, "PONG") {
        MessageKind::Pong
    } else if str_eq(name, "ERROR") {
        MessageKind::Error
    } else {
        assert forall|kind: MessageKind| #[trigger] wire_name(kind) != name@ by {}
        return None;
    };
    proof {
        law_kind_round_trip(kind);
    }
    Some(kind)
}

/// The kind of the message in a payload, if the payload is a message of a known kind. Whatever else
/// it holds is ignored. A flat message is always told by the text that it was written with.
pub fn parse_message_kind(payload: &[u8]) -> (kind: Option<MessageKind>)
    ensures
        kind == message_kind(payload@),
        forall|sent: serde_json::Value|
            #![trigger spells(payload@, sent)]
            spells(payload@, sent) ==> kind == document_kind(sent),
{
    let mut keys: Vec<&'static str> = Vec::new();
    keys.push("type");
    assert(keys_of(keys@) =~= seq!["type"@]);
    let read = read_record(payload, &keys);
    assert forall|sent: serde_json::Value|
        #![trigger spells(payload@, sent)]
        spells(payload@, sent) implies read is Ok && exists|
        members: Seq<(Seq<char>, serde_json::Value)>,
    |
        #![trigger find_member(members, "type"@)]
        are_plain_members(members) && find_member(members, "type"@) == json_member(sent, "type"@)
            && raw_field(read->Ok_0@[0]) == written_field(
            compact(),
            find_member(members, "type"@),
        ) by {
        let members = choose|members: Seq<(Seq<char>, serde_json::Value)>|
            #![trigger object_bytes(compact(), members)]
            members.len() > 0 && lists_members(sent, members) && payload@ == object_bytes(
                compact(),
                members,
            );
        lemma_find_listed(sent, members, "type"@);
        assert(is_text_of(payload@, compact(), members));
        assert(raw_field(read->Ok_0@[0]) == written_field(
            compact(),
            find_member(members, keys@[0]@),
        ));
    }
    let raws = match read {
        Ok(raws) => raws,
        Err(_) => {
            return None;
        },
    };
    assert(raw_fields(raws@)[0] == raw_field(raws@[0]));
    match text_field(&raws[0], "type") {
        Ok(name) => named_kind(name.as_str()),
        Err(_) => None,
    }
}

/// The `type` of every kind of message.
pub proof fn law_names_on_the_wire()
    ensures
        wire_name(MessageKind::Hello) == "HELLO"@,
        wire_name(MessageKind::Auth) == "AUTH"@,
        wire_name(MessageKind::Attach) == "ATTACH"@,
        wire_name(MessageKind::Resume) == "RESUME"@,
        wire_name(MessageKind::Resize) == "RESIZE"@,
        wire_name(MessageKind::Detach) == "DETACH"@,
        wire_name(MessageKind::Close) == "CLOSE"@,
        wire_name(MessageKind::Ping) == "PING"@,
        wire_name(MessageKind::Pong) == "PONG"@,
        wire_name(MessageKind::Error) == "ERROR"@,
{
}

} // verus!
