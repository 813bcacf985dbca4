//! The documents that the server writes.

#[allow(unused_imports)]
use crate::document::{distinct_keys, fields_of, has_fields, is_line_of, Field};
use crate::document::{document, line, Item};
use crate::ids::Uuid;
#[allow(unused_imports)]
use crate::ids::uuid_text;
use crate::fields::read_record;
#[allow(unused_imports)]
use crate::fields::{
    find_member, is_text_of, keys_of, lemma_find_listed, raw_field, raw_fields, record_of,
    written_field,
};
use crate::json::{get_list, parse_json};
#[allow(unused_imports)]
use crate::json::{
    compact, has_other_items, is_text_list, json_as_str, json_item, json_member, json_parse, lists,
    lists_members, object_bytes, spells, value_bytes, writes,
};
use crate::protocol::messages::ErrorMessage;
use crate::runtime::BootstrapOutput;
use crate::server::connection::Reply;
#[allow(unused_imports)]
use crate::text::texts;
use crate::{PROTOCOL_VERSION, SERVER_VERSION};
use vstd::prelude::*;

verus! {

/// The fields of a reply.
pub open spec fn reply_fields(reply: Reply) -> Seq<(Seq<char>, Field)> {
    match reply {
        Reply::HelloAck { capabilities, session_timeout_seconds } => seq![
            ("type"@, Field::Text("HELLO_ACK"@)),
            ("protocol_version"@, Field::Text(PROTOCOL_VERSION@)),
            ("server_version"@, Field::Text(SERVER_VERSION@)),
            ("capabilities"@, Field::List(texts(capabilities@))),
            ("session_timeout_seconds"@, Field::Number(session_timeout_seconds)),
        ],
        Reply::AuthOk { session_id, resume_token, resume_token_expires_in_seconds } => seq![
            ("type"@, Field::Text("AUTH_OK"@)),
            ("session_id"@, Field::Text(uuid_text(session_id.value))),
            ("resume_token"@, Field::Text(resume_token@)),
            (
                "resume_token_expires_in_seconds"@,
                Field::Number(resume_token_expires_in_seconds),
            ),
        ],
        Reply::Pong { nonce } => seq![
            ("type"@, Field::Text("PONG"@)),
            ("nonce"@, Field::Document(nonce)),
        ],
    }
}

impl Reply {
    /// The document that is sent.
    pub fn document(self) -> (value: serde_json::Value)
        ensures
            has_fields(value, reply_fields(self)),
    {
        let mut items: Vec<(&'static str, Item)> = Vec::new();
        match self {
            Reply::HelloAck { capabilities, session_timeout_seconds } => {
                items.push(("type", Item::Text("HELLO_ACK".to_owned())));
                items.push(("protocol_version", Item::Text(PROTOCOL_VERSION.to_owned())));
                items.push(("server_version", Item::Text(SERVER_VERSION.to_owned())));
                items.push(("capabilities", Item::List(capabilities)));
                items.push(("session_timeout_seconds", Item::Number(session_timeout_seconds)));
            },
            Reply::AuthOk { session_id, resume_token, resume_token_expires_in_seconds } => {
                items.push(("type", Item::Text("AUTH_OK".to_owned())));
                items.push(("session_id", Item::Text(session_id.to_text())));
                items.push(("resume_token", Item::Text(resume_token)));
                items.push(
                    (
                        "resume_token_expires_in_seconds",
                        Item::Number(resume_token_expires_in_seconds),
                    ),
                );
            },
            Reply::Pong { nonce } => {
                items.push(("type", Item::Text("PONG".to_owned())));
                items.push(("nonce", Item::Document(nonce)));
            },
        }
        assert(fields_of(items@) =~= reply_fields(self));
        document(items)
    }
}

/// The fields of `ATTACH_OK`.
pub open spec fn attach_ok_fields(session_id: Uuid) -> Seq<(Seq<char>, Field)> {
    seq![
        ("type"@, Field::Text("ATTACH_OK"@)),
        ("session_id"@, Field::Text(uuid_text(session_id.value))),
    ]
}

/// The document that tells a client that it is attached.
pub fn attach_ok_document(session_id: Uuid) -> (value: serde_json::Value)
    ensures
        has_fields(value, attach_ok_fields(session_id)),
{
    let mut items: Vec<(&'static str, Item)> = Vec::new();
    items.push(("type", Item::Text("ATTACH_OK".to_owned())));
    items.push(("session_id", Item::Text(session_id.to_text())));
    assert(fields_of(items@) =~= attach_ok_fields(session_id));
    document(items)
}

/// The fields of `RESUME_OK`.
pub open spec fn resume_ok_fields(session_id: Uuid, replay_bytes: usize) -> Seq<
    (Seq<char>, Field),
> {
    seq![
        ("type"@, Field::Text("RESUME_OK"@)),
        ("session_id"@, Field::Text(uuid_text(session_id.value))),
        ("replay_bytes"@, Field::Number(replay_bytes as u64)),
    ]
}

/// The document that tells a client that it has resumed the session, and how much output follows.
pub fn resume_ok_document(session_id: Uuid, replay_bytes: usize) -> (value: serde_json::Value)
    ensures
        has_fields(value, resume_ok_fields(session_id, replay_bytes)),
{
    let mut items: Vec<(&'static str, Item)> = Vec::new();
    items.push(("type", Item::Text("RESUME_OK".to_owned())));
    items.push(("session_id", Item::Text(session_id.to_text())));
    items.push(("replay_bytes", Item::Number(replay_bytes as u64)));
    assert(fields_of(items@) =~= resume_ok_fields(session_id, replay_bytes));
    document(items)
}

/// The fields of `ERROR`.
pub open spec fn error_fields(error: ErrorMessage) -> Seq<(Seq<char>, Field)> {
    seq![
        ("type"@, Field::Text(error.msg_type@)),
        ("code"@, Field::Text(error.code@)),
        ("message"@, Field::Text(error.message@)),
        ("retryable"@, Field::Truth(error.retryable)),
    ]
}

/// The document that tells a client what went wrong.
pub fn error_document(error: ErrorMessage) -> (value: serde_json::Value)
    ensures
        has_fields(value, error_fields(error)),
{
    let mut items: Vec<(&'static str, Item)> = Vec::new();
    items.push(("type", Item::Text(error.msg_type.to_owned())));
    items.push(("code", Item::Text(error.code.to_owned())));
    items.push(("message", Item::Text(error.message)));
    items.push(("retryable", Item::Truth(error.retryable)));
    assert(fields_of(items@) =~= error_fields(error));
    document(items)
}

/// The fields of what a client needs to reach a session.
pub open spec fn bootstrap_fields(
    session_id: Uuid,
    auth_token: Seq<char>,
    auth_token_expires_in_seconds: u64,
    quic_addr: Seq<char>,
    cert_fingerprint: Seq<char>,
) -> Seq<(Seq<char>, Field)> {
    seq![
        ("session_id"@, Field::Text(uuid_text(session_id.value))),
        ("auth_token"@, Field::Text(auth_token)),
        ("auth_token_expires_in_seconds"@, Field::Number(auth_token_expires_in_seconds)),
        ("quic_addr"@, Field::Text(quic_addr)),
        ("cert_fingerprint"@, Field::Text(cert_fingerprint)),
    ]
}

/// The fields of what a server tells of a session have different keys.
pub proof fn lemma_bootstrap_keys(fields: Seq<(Seq<char>, Field)>)
    requires
        fields.len() == 5,
        fields[0].0 == "session_id"@,
        fields[1].0 == "auth_token"@,
        fields[2].0 == "auth_token_expires_in_seconds"@,
        fields[3].0 == "quic_addr"@,
        fields[4].0 == "cert_fingerprint"@,
    ensures
        distinct_keys(fields),
{
    reveal_strlit("session_id");
    reveal_strlit("auth_token");
    reveal_strlit("auth_token_expires_in_seconds");
    reveal_strlit("quic_addr");
    reveal_strlit("cert_fingerprint");
    assert("session_id"@.len() == 10 && "session_id"@[0] == 's');
    assert("auth_token"@.len() == 10 && "auth_token"@[0] == 'a');
    assert("auth_token_expires_in_seconds"@.len() == 29);
    assert("quic_addr"@.len() == 9 && "cert_fingerprint"@.len() == 16);
}

impl BootstrapOutput {
    /// The fields of what is told.
    pub open spec fn fields(&self) -> Seq<(Seq<char>, Field)> {
        bootstrap_fields(
            self.session_id,
            self.auth_token@,
            self.auth_token_expires_in_seconds,
            self.quic_addr@,
            self.cert_fingerprint@,
        )
    }

    /// The fields of what is told.
    fn items(&self) -> (items: Vec<(&'static str, Item)>)
        ensures
            fields_of(items@) == self.fields(),
    {
        let mut items: Vec<(&'static str, Item)> = Vec::new();
        items.push(("session_id", Item::Text(self.session_id.to_text())));
        items.push(("auth_token", Item::Text(self.auth_token.clone())));
        items.push(
            ("auth_token_expires_in_seconds", Item::Number(self.auth_token_expires_in_seconds)),
        );
        items.push(("quic_addr", Item::Text(self.quic_addr.clone())));
        items.push(("cert_fingerprint", Item::Text(self.cert_fingerprint.clone())));
        assert(fields_of(items@) =~= self.fields());
        items
    }

    /// The document that answers a request for a new token.
    pub fn document(&self) -> (value: serde_json::Value)
        ensures
            has_fields(value, self.fields()),
    {
        document(self.items())
    }

    /// The line that is printed for a new session: its fields in order.
    pub fn line(&self) -> (text: Result<String, String>)
        ensures
            text is Ok && is_line_of(text->Ok_0@, self.fields()),
    {
        line(self.items())
    }
}

/// The document that says what went wrong, and nothing else.
pub fn failure_document(why: &str) -> (value: serde_json::Value)
    ensures
        has_fields(value, seq![("error"@, Field::Text(why@))]),
{
    let mut items: Vec<(&'static str, Item)> = Vec::new();
    items.push(("error", Item::Text(why.to_owned())));
    assert(fields_of(items@) =~= seq![("error"@, Field::Text(why@))]);
    document(items)
}

/// The fields of a request for a new token.
pub open spec fn renewal_fields(session_id: Uuid, user: Seq<char>) -> Seq<(Seq<char>, Field)> {
    seq![
        ("session_id"@, Field::Text(uuid_text(session_id.value))),
        ("user"@, Field::Text(user)),
    ]
}

/// The document that asks for a new token.
pub fn renewal_document(session_id: Uuid, user: &str) -> (value: serde_json::Value)
    ensures
        has_fields(value, renewal_fields(session_id, user@)),
{
    let mut items: Vec<(&'static str, Item)> = Vec::new();
    items.push(("session_id", Item::Text(session_id.to_text())));
    items.push(("user", Item::Text(user.to_owned())));
    assert(fields_of(items@) =~= renewal_fields(session_id, user@));
    document(items)
}

/// Whether these are the capabilities that a `HELLO` lists: none if it has no list, or one with
/// anything but texts in it. Whatever else it holds is ignored.
pub open spec fn lists_capabilities(payload: Seq<u8>, capabilities: Seq<Seq<char>>) -> bool {
    match record_of(payload, seq!["capabilities"@]) {
        Err(_) => capabilities.len() == 0,
        Ok(fields) => match fields[0] {
            None => capabilities.len() == 0,
            Some(raw) => match json_parse(raw) {
                Err(_) => capabilities.len() == 0,
                Ok(list) => {
                    ||| lists(list, capabilities)
                    ||| has_other_items(list) && capabilities.len() == 0
                },
            },
        },
    }
}

/// Whether the capabilities that a flat `HELLO` was written with are heard.
pub open spec fn hears(payload: Seq<u8>, capabilities: Seq<Seq<char>>) -> bool {
    forall|sent: serde_json::Value, list: Seq<Seq<char>>|
        #![trigger spells(payload, sent), lists(json_member(sent, "capabilities"@)->0, list)]
        spells(payload, sent) && json_member(sent, "capabilities"@) is Some && lists(
            json_member(sent, "capabilities"@)->0,
            list,
        ) && list.len() > 0 ==> capabilities == list
}

/// A document is the array of one list of texts only.
pub proof fn lemma_list_is_unique(value: serde_json::Value, a: Seq<Seq<char>>, b: Seq<Seq<char>>)
    requires
        lists(value, a),
        lists(value, b),
    ensures
        a == b,
{
    assert(json_item(value, a.len()) is None);
    assert(json_item(value, b.len()) is None);
    assert forall|i: int| 0 <= i < a.len() implies a[i] == b[i] by {
        assert(json_item(value, i as nat) is Some);
    }
    assert(a =~= b);
}

/// What is found of the capabilities of a `HELLO` is the text of their list.
proof fn lemma_capabilities_found(
    payload: Seq<u8>,
    sent: serde_json::Value,
) -> (members: Seq<(Seq<char>, serde_json::Value)>)
    requires
        spells(payload, sent),
    ensures
        is_text_of(payload, compact(), members),
        find_member(members, "capabilities"@) == json_member(sent, "capabilities"@),
{
    let members = choose|members: Seq<(Seq<char>, serde_json::Value)>|
        #![trigger object_bytes(compact(), members)]
        members.len() > 0 && lists_members(sent, members) && payload == object_bytes(
            compact(),
            members,
        );
    lemma_find_listed(sent, members, "capabilities"@);
    members
}

/// The capabilities that a `HELLO` lists.
pub fn hello_capabilities(payload: &[u8]) -> (capabilities: Vec<String>)
    ensures
        lists_capabilities(payload@, texts(capabilities@)),
        hears(payload@, texts(capabilities@)),
{
    let none: Vec<String> = Vec::new();
    assert(texts(none@).len() == 0);
    let mut keys: Vec<&'static str> = Vec::new();
    keys.push("capabilities");
    assert(keys_of(keys@) =~= seq!["capabilities"@]);
    let read = read_record(payload, &keys);
    assert forall|sent: serde_json::Value| #[trigger] spells(payload@, sent) implies read is Ok
        && raw_field(read->Ok_0@[0]) == written_field(
        compact(),
        json_member(sent, "capabilities"@),
    ) by {
        let members = lemma_capabilities_found(payload@, sent);
        assert(raw_field(read->Ok_0@[0]) == written_field(
            compact(),
            find_member(members, keys@[0]@),
        ));
    }
    let raws = match read {
        Ok(raws) => raws,
        Err(_) => {
            return none;
        },
    };
    assert(raw_fields(raws@)[0] == raw_field(raws@[0]));
    let raw = match &raws[0] {
        Some(raw) => raw,
        None => {
            return none;
        },
    };
    let parsed = parse_json(raw.as_slice());
    assert forall|sent: serde_json::Value, list: Seq<Seq<char>>|
        #![trigger spells(payload@, sent), lists(json_member(sent, "capabilities"@)->0, list)]
        spells(payload@, sent) && json_member(sent, "capabilities"@) is Some && lists(
            json_member(sent, "capabilities"@)->0,
            list,
        ) && list.len() > 0 implies parsed is Ok && parsed->Ok_0 == json_member(
        sent,
        "capabilities"@,
    )->0 by {
        let value = json_member(sent, "capabilities"@)->0;
        assert(compact().before_member + value_bytes(value) =~= value_bytes(value));
        assert(json_item(value, 0) is Some);
        assert(is_text_list(value));
        assert(writes(raw@, value));
    }
    match parsed {
        Err(_) => none,
        Ok(list) => {
            let heard = get_list(&list);
            assert forall|sent: serde_json::Value, wanted: Seq<Seq<char>>|
                #![trigger spells(payload@, sent), lists(json_member(sent, "capabilities"@)->0, wanted)]
                spells(payload@, sent) && json_member(sent, "capabilities"@) is Some && lists(
                    json_member(sent, "capabilities"@)->0,
                    wanted,
                ) && wanted.len() > 0 implies heard is Some && texts(heard->0@) == wanted by {
                if heard is Some {
                    lemma_list_is_unique(list, texts(heard->0@), wanted);
                } else {
                    let at = choose|at: nat|
                        (#[trigger] json_item(list, at)) is Some && json_as_str(
                            json_item(list, at)->0,
                        ) is None;
                    assert(json_as_str(json_item(list, at)->0) is Some);
                }
            }
            match heard {
                Some(capabilities) => capabilities,
                None => none,
            }
        },
    }
}

/// `HELLO_ACK` carries what the server is capable of, the versions that it speaks and how long a
/// session waits.
pub proof fn law_hello_ack_carries(capabilities: Vec<String>, session_timeout_seconds: u64)
    ensures
        ({
            let fields = reply_fields(Reply::HelloAck { capabilities, session_timeout_seconds });
            &&& fields.len() == 5
            &&& fields.contains(("type"@, Field::Text("HELLO_ACK"@)))
            &&& fields.contains(("protocol_version"@, Field::Text(PROTOCOL_VERSION@)))
            &&& fields.contains(("server_version"@, Field::Text(SERVER_VERSION@)))
            &&& fields.contains(("capabilities"@, Field::List(texts(capabilities@))))
            &&& fields.contains(("session_timeout_seconds"@, Field::Number(session_timeout_seconds)))
        }),
{
    let fields = reply_fields(Reply::HelloAck { capabilities, session_timeout_seconds });
    assert(fields[0] == ("type"@, Field::Text("HELLO_ACK"@)));
    assert(fields[1] == ("protocol_version"@, Field::Text(PROTOCOL_VERSION@)));
    assert(fields[2] == ("server_version"@, Field::Text(SERVER_VERSION@)));
    assert(fields[3] == ("capabilities"@, Field::List(texts(capabilities@))));
    assert(fields[4] == ("session_timeout_seconds"@, Field::Number(session_timeout_seconds)));
}

/// `AUTH_OK` carries the session, the token to resume it with and how long that lasts.
pub proof fn law_auth_ok_carries(session_id: Uuid, resume_token: String, seconds: u64)
    ensures
        ({
            let fields = reply_fields(
        Reply::AuthOk { session_id, resume_token, resume_token_expires_in_seconds: seconds },
    );
            &&& fields.len() == 4
            &&& fields.contains(("type"@, Field::Text("AUTH_OK"@)))
            &&& fields.contains(("session_id"@, Field::Text(uuid_text(session_id.value))))
            &&& fields.contains(("resume_token"@, Field::Text(resume_token@)))
            &&& fields.contains(("resume_token_expires_in_seconds"@, Field::Number(seconds)))
        }),
{
    let fields = reply_fields(
        Reply::AuthOk { session_id, resume_token, resume_token_expires_in_seconds: seconds },
    );
    assert(fields[0] == ("type"@, Field::Text("AUTH_OK"@)));
    assert(fields[1] == ("session_id"@, Field::Text(uuid_text(session_id.value))));
    assert(fields[2] == ("resume_token"@, Field::Text(resume_token@)));
    assert(fields[3] == ("resume_token_expires_in_seconds"@, Field::Number(seconds)));
}

/// `ERROR` carries what went wrong, as a code and in words, and whether trying again may help.
pub proof fn law_error_carries(error: ErrorMessage)
    ensures
        ({
            let fields = error_fields(error);
            &&& fields.len() == 4
            &&& fields.contains(("type"@, Field::Text(error.msg_type@)))
            &&& fields.contains(("code"@, Field::Text(error.code@)))
            &&& fields.contains(("message"@, Field::Text(error.message@)))
            &&& fields.contains(("retryable"@, Field::Truth(error.retryable)))
        }),
{
    let fields = error_fields(error);
    assert(fields[0] == ("type"@, Field::Text(error.msg_type@)));
    assert(fields[1] == ("code"@, Field::Text(error.code@)));
    assert(fields[2] == ("message"@, Field::Text(error.message@)));
    assert(fields[3] == ("retryable"@, Field::Truth(error.retryable)));
}

/// What a client needs to reach a session is all written: the session, the token and how long it
/// lasts, the address and the fingerprint.
pub proof fn law_bootstrap_carries(
    session_id: Uuid,
    token: Seq<char>,
    seconds: u64,
    addr: Seq<char>,
    print: Seq<char>,
)
    ensures
        ({
            let fields = bootstrap_fields(session_id, token, seconds, addr, print);
            &&& fields.len() == 5
            &&& fields.contains(("session_id"@, Field::Text(uuid_text(session_id.value))))
            &&& fields.contains(("auth_token"@, Field::Text(token)))
            &&& fields.contains(("auth_token_expires_in_seconds"@, Field::Number(seconds)))
            &&& fields.contains(("quic_addr"@, Field::Text(addr)))
            &&& fields.contains(("cert_fingerprint"@, Field::Text(print)))
        }),
{
    let fields = bootstrap_fields(session_id, token, seconds, addr, print);
    assert(fields[0] == ("session_id"@, Field::Text(uuid_text(session_id.value))));
    assert(fields[1] == ("auth_token"@, Field::Text(token)));
    assert(fields[2] == ("auth_token_expires_in_seconds"@, Field::Number(seconds)));
    assert(fields[3] == ("quic_addr"@, Field::Text(addr)));
    assert(fields[4] == ("cert_fingerprint"@, Field::Text(print)));
}

/// `ATTACH_OK` carries the session, `RESUME_OK` the session and how much output follows, `PONG` the
/// nonce as it came, and a request for a new token the session and the user.
pub proof fn law_short_answers_carry(
    session_id: Uuid,
    replay_bytes: usize,
    nonce: serde_json::Value,
    user: Seq<char>,
)
    ensures
        attach_ok_fields(session_id) == seq![
            ("type"@, Field::Text("ATTACH_OK"@)),
            ("session_id"@, Field::Text(uuid_text(session_id.value))),
        ],
        resume_ok_fields(session_id, replay_bytes) == seq![
            ("type"@, Field::Text("RESUME_OK"@)),
            ("session_id"@, Field::Text(uuid_text(session_id.value))),
            ("replay_bytes"@, Field::Number(replay_bytes as u64)),
        ],
        reply_fields(Reply::Pong { nonce }) == seq![
            ("type"@, Field::Text("PONG"@)),
            ("nonce"@, Field::Document(nonce)),
        ],
        renewal_fields(session_id, user) == seq![
            ("session_id"@, Field::Text(uuid_text(session_id.value))),
            ("user"@, Field::Text(user)),
        ],
{
}

} // verus!
