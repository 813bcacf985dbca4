//! What the server's answers carry.

use crate::ids::Uuid;
#[allow(unused_imports)]
use crate::ids::{uuid_parse, uuid_text};
#[allow(unused_imports)]
use crate::json::{
    json_as_str, json_as_u64, json_item, json_member, json_number_error, json_size_error, json_str,
    json_text_error, json_u64, json_uuid_error,
};
use crate::json::{item, member, read_number, read_size, read_text, read_uuid};
use crate::text::{append_decimal, concat};
#[allow(unused_imports)]
use crate::text::decimal;
use vstd::prelude::*;

verus! {

/// What an `AUTH_OK` message carries.
#[derive(Debug)]
pub struct AuthOk {
    pub session_id: Uuid,
    pub resume_token: String,
    pub resume_token_expires_in_seconds: u64,
}

/// What an `AUTH_OK` message carries, with the token as a sequence of characters.
#[verifier::ext_equal]
pub struct AuthOkView {
    pub session_id: Uuid,
    pub resume_token: Seq<char>,
    pub resume_token_expires_in_seconds: u64,
}

impl View for AuthOk {
    type V = AuthOkView;

    open spec fn view(&self) -> AuthOkView {
        AuthOkView {
            session_id: self.session_id,
            resume_token: self.resume_token@,
            resume_token_expires_in_seconds: self.resume_token_expires_in_seconds,
        }
    }
}

/// What a `RESUME_OK` message carries.
#[derive(Debug)]
pub struct ResumeOk {
    pub session_id: Uuid,
    pub replay_bytes: usize,
}

/// The text that a document is, or what is wrong with it.
pub open spec fn text_value_of(value: serde_json::Value) -> Result<Seq<char>, Seq<char>> {
    match json_as_str(value) {
        Some(text) => Ok(text),
        None => Err(json_text_error(value)),
    }
}

/// The number that a document is, or what is wrong with it.
pub open spec fn number_value_of(value: serde_json::Value) -> Result<u64, Seq<char>> {
    match json_as_u64(value) {
        Some(n) => Ok(n),
        None => Err(json_number_error(value)),
    }
}

/// The size that a document is, or what is wrong with it.
pub open spec fn size_value_of(value: serde_json::Value) -> Result<usize, Seq<char>> {
    if json_as_u64(value) is Some && json_as_u64(value)->0 <= usize::MAX {
        Ok(json_as_u64(value)->0 as usize)
    } else {
        Err(json_size_error(value))
    }
}

/// The identifier that a document is, or what is wrong with it.
pub open spec fn id_value_of(value: serde_json::Value) -> Result<Uuid, Seq<char>> {
    match json_as_str(value) {
        Some(text) => match uuid_parse(text) {
            Ok(id) => Ok(Uuid { value: id }),
            Err(why) => Err("UUID parsing failed: "@ + why),
        },
        None => Err(json_uuid_error(value)),
    }
}

/// Whether an array has this many items.
pub open spec fn has_length(value: serde_json::Value, n: nat) -> bool {
    &&& json_item(value, n) is None
    &&& forall|k: nat| k < n ==> (#[trigger] json_item(value, k)) is Some
}

/// The complaint about an array with too many items.
pub open spec fn too_long(value: serde_json::Value) -> Seq<char> {
    "invalid length "@ + decimal(choose|n: nat| has_length(value, n))
        + ", expected fewer elements in array"@
}

/// What an `AUTH_OK` message carries if it is an array, or the first thing that is wrong with it.
pub open spec fn auth_ok_items(value: serde_json::Value) -> Result<AuthOkView, Seq<char>> {
    match id_value_of(json_item(value, 0)->0) {
        Err(why) => Err(why),
        Ok(session_id) => if json_item(value, 1) is None {
            Err("invalid length 1, expected struct AuthOk with 3 elements"@)
        } else {
            match text_value_of(json_item(value, 1)->0) {
                Err(why) => Err(why),
                Ok(resume_token) => if json_item(value, 2) is None {
                    Err("invalid length 2, expected struct AuthOk with 3 elements"@)
                } else {
                    match number_value_of(json_item(value, 2)->0) {
                        Err(why) => Err(why),
                        Ok(resume_token_expires_in_seconds) => if json_item(value, 3) is Some {
                            Err(too_long(value))
                        } else {
                            Ok(
                                AuthOkView {
                                    session_id,
                                    resume_token,
                                    resume_token_expires_in_seconds,
                                },
                            )
                        },
                    }
                },
            }
        },
    }
}

/// What an `AUTH_OK` message carries if it is an object, or the first thing that is wrong with it: a
/// member that is not what it should be, by the order of the keys, or else a field that is missing.
pub open spec fn auth_ok_members(value: serde_json::Value) -> Result<AuthOkView, Seq<char>> {
    let token = json_member(value, "resume_token"@);
    let expiry = json_member(value, "resume_token_expires_in_seconds"@);
    let id = json_member(value, "session_id"@);
    if token is Some && text_value_of(token->0) is Err {
        Err(text_value_of(token->0)->Err_0)
    } else if expiry is Some && number_value_of(expiry->0) is Err {
        Err(number_value_of(expiry->0)->Err_0)
    } else if id is Some && id_value_of(id->0) is Err {
        Err(id_value_of(id->0)->Err_0)
    } else if id is None {
        Err("missing field `session_id`"@)
    } else if token is None {
        Err("missing field `resume_token`"@)
    } else if expiry is None {
        Err("missing field `resume_token_expires_in_seconds`"@)
    } else {
        Ok(
            AuthOkView {
                session_id: id_value_of(id->0)->Ok_0,
                resume_token: text_value_of(token->0)->Ok_0,
                resume_token_expires_in_seconds: number_value_of(expiry->0)->Ok_0,
            },
        )
    }
}

/// What an `AUTH_OK` message carries, or the first thing that is wrong with it.
pub open spec fn auth_ok_of(value: serde_json::Value) -> Result<AuthOkView, Seq<char>> {
    if json_item(value, 0) is Some {
        auth_ok_items(value)
    } else {
        auth_ok_members(value)
    }
}

/// What a `RESUME_OK` message carries if it is an array, or the first thing that is wrong with it.
pub open spec fn resume_ok_items(value: serde_json::Value) -> Result<ResumeOk, Seq<char>> {
    match id_value_of(json_item(value, 0)->0) {
        Err(why) => Err(why),
        Ok(session_id) => if json_item(value, 1) is None {
            Err("invalid length 1, expected struct ResumeOk with 2 elements"@)
        } else {
            match size_value_of(json_item(value, 1)->0) {
                Err(why) => Err(why),
                Ok(replay_bytes) => if json_item(value, 2) is Some {
                    Err(too_long(value))
                } else {
                    Ok(ResumeOk { session_id, replay_bytes })
                },
            }
        },
    }
}

/// What a `RESUME_OK` message carries if it is an object, or the first thing that is wrong with it,
/// found as for `AUTH_OK`.
pub open spec fn resume_ok_members(value: serde_json::Value) -> Result<ResumeOk, Seq<char>> {
    let size = json_member(value, "replay_bytes"@);
    let id = json_member(value, "session_id"@);
    if size is Some && size_value_of(size->0) is Err {
        Err(size_value_of(size->0)->Err_0)
    } else if id is Some && id_value_of(id->0) is Err {
        Err(id_value_of(id->0)->Err_0)
    } else if id is None {
        Err("missing field `session_id`"@)
    } else if size is None {
        Err("missing field `replay_bytes`"@)
    } else {
        Ok(
            ResumeOk {
                session_id: id_value_of(id->0)->Ok_0,
                replay_bytes: size_value_of(size->0)->Ok_0,
            },
        )
    }
}

/// What a `RESUME_OK` message carries, or the first thing that is wrong with it.
pub open spec fn resume_ok_of(value: serde_json::Value) -> Result<ResumeOk, Seq<char>> {
    if json_item(value, 0) is Some {
        resume_ok_items(value)
    } else {
        resume_ok_members(value)
    }
}

/// Whether a message says that the client is authenticated for this session.
pub open spec fn says_auth_ok(value: serde_json::Value, auth_ok: AuthOkView) -> bool {
    &&& json_str(value, "session_id"@) == Some(uuid_text(auth_ok.session_id.value))
    &&& json_str(value, "resume_token"@) == Some(auth_ok.resume_token)
    &&& json_u64(value, "resume_token_expires_in_seconds"@) == Some(
        auth_ok.resume_token_expires_in_seconds,
    )
}

/// Whether a message says that this session is resumed.
pub open spec fn says_resume_ok(value: serde_json::Value, resume_ok: ResumeOk) -> bool {
    &&& json_str(value, "session_id"@) == Some(uuid_text(resume_ok.session_id.value))
    &&& json_u64(value, "replay_bytes"@) == Some(resume_ok.replay_bytes as u64)
}

/// Whether a message that says something is read as just that.
pub open spec fn is_understood(value: serde_json::Value) -> bool {
    &&& forall|a: AuthOkView| #[trigger]
        says_auth_ok(value, a) ==> auth_ok_of(value) == Ok::<AuthOkView, Seq<char>>(a)
    &&& forall|r: ResumeOk| #[trigger]
        says_resume_ok(value, r) ==> resume_ok_of(value) == Ok::<ResumeOk, Seq<char>>(r)
}

/// Whether this is what an `AUTH_OK` message carries, or what is wrong with it.
pub open spec fn is_auth_reading(
    read: Result<AuthOk, String>,
    expected: Result<AuthOkView, Seq<char>>,
) -> bool {
    match (read, expected) {
        (Ok(a), Ok(want)) => a@ == want,
        (Err(why), Err(want)) => why@ == want,
        _ => false,
    }
}

/// Whether this is what a `RESUME_OK` message carries, or what is wrong with it.
pub open spec fn is_resume_reading(
    read: Result<ResumeOk, String>,
    expected: Result<ResumeOk, Seq<char>>,
) -> bool {
    match (read, expected) {
        (Ok(r), Ok(want)) => r == want,
        (Err(why), Err(want)) => why@ == want,
        _ => false,
    }
}

/// Complains about an array with too many items.
fn complain_of_length(value: &serde_json::Value) -> (why: String)
    ensures
        why@ == too_long(*value),
{
    let mut n: usize = 0;
    loop
        invariant
            forall|k: nat| k < n ==> (#[trigger] json_item(*value, k)) is Some,
        decreases usize::MAX - n,
    {
        if item(value, n).is_none() {
            let ghost chosen = choose|m: nat| has_length(*value, m);
            assert(has_length(*value, n as nat));
            assert(chosen == n) by {
                if chosen < n {
                    assert(json_item(*value, chosen) is Some);
                } else if chosen > n {
                    assert(json_item(*value, n as nat) is Some);
                }
            }
            let mut why = "invalid length ".to_owned();
            append_decimal(&mut why, n as u64);
            return concat(why.as_str(), ", expected fewer elements in array");
        }
        n += 1;
    }
}

/// Reads what an `AUTH_OK` message carries that is an array.
fn read_auth_ok_items(value: &serde_json::Value, first: &serde_json::Value) -> (read: Result<
    AuthOk,
    String,
>)
    requires
        json_item(*value, 0) == Some(*first),
    ensures
        is_auth_reading(read, auth_ok_items(*value)),
{
    let id = match read_uuid(first) {
        Ok(id) => id,
        Err(why) => {
            return Err(why);
        },
    };
    let resume_token = match item(value, 1) {
        None => {
            return Err("invalid length 1, expected struct AuthOk with 3 elements".to_owned());
        },
        Some(m) => match read_text(m) {
            Ok(text) => text,
            Err(why) => {
                return Err(why);
            },
        },
    };
    let resume_token_expires_in_seconds = match item(value, 2) {
        None => {
            return Err("invalid length 2, expected struct AuthOk with 3 elements".to_owned());
        },
        Some(m) => match read_number(m) {
            Ok(n) => n,
            Err(why) => {
                return Err(why);
            },
        },
    };
    if item(value, 3).is_some() {
        return Err(complain_of_length(value));
    }
    Ok(AuthOk { session_id: Uuid::from_u128(id), resume_token, resume_token_expires_in_seconds })
}

/// Reads what an `AUTH_OK` message carries.
pub fn read_auth_ok(value: &serde_json::Value) -> (read: Result<AuthOk, String>)
    ensures
        is_auth_reading(read, auth_ok_of(*value)),
        forall|a: AuthOkView| #[trigger]
            says_auth_ok(*value, a) ==> auth_ok_of(*value) == Ok::<AuthOkView, Seq<char>>(a),
{
    if let Some(first) = item(value, 0) {
        return read_auth_ok_items(value, first);
    }
    let resume_token = match member(value, "resume_token") {
        Some(m) => match read_text(m) {
            Ok(text) => Some(text),
            Err(why) => {
                return Err(why);
            },
        },
        None => None,
    };
    let expires_in = match member(value, "resume_token_expires_in_seconds") {
        Some(m) => match read_number(m) {
            Ok(n) => Some(n),
            Err(why) => {
                return Err(why);
            },
        },
        None => None,
    };
    let session_id = match member(value, "session_id") {
        Some(m) => match read_uuid(m) {
            Ok(id) => Some(id),
            Err(why) => {
                return Err(why);
            },
        },
        None => None,
    };
    match session_id {
        None => Err("missing field `session_id`".to_owned()),
        Some(id) => match resume_token {
            None => Err("missing field `resume_token`".to_owned()),
            Some(resume_token) => match expires_in {
                None => Err("missing field `resume_token_expires_in_seconds`".to_owned()),
                Some(resume_token_expires_in_seconds) => Ok(
                    AuthOk {
                        session_id: Uuid::from_u128(id),
                        resume_token,
                        resume_token_expires_in_seconds,
                    },
                ),
            },
        },
    }
}

/// Reads what a `RESUME_OK` message carries that is an array.
fn read_resume_ok_items(value: &serde_json::Value, first: &serde_json::Value) -> (read: Result<
    ResumeOk,
    String,
>)
    requires
        json_item(*value, 0) == Some(*first),
    ensures
        is_resume_reading(read, resume_ok_items(*value)),
{
    let id = match read_uuid(first) {
        Ok(id) => id,
        Err(why) => {
            return Err(why);
        },
    };
    let replay_bytes = match item(value, 1) {
        None => {
            return Err("invalid length 1, expected struct ResumeOk with 2 elements".to_owned());
        },
        Some(m) => match read_size(m) {
            Ok(n) => n,
            Err(why) => {
                return Err(why);
            },
        },
    };
    if item(value, 2).is_some() {
        return Err(complain_of_length(value));
    }
    Ok(ResumeOk { session_id: Uuid::from_u128(id), replay_bytes })
}

/// Reads what a `RESUME_OK` message carries.
pub fn read_resume_ok(value: &serde_json::Value) -> (read: Result<ResumeOk, String>)
    ensures
        is_resume_reading(read, resume_ok_of(*value)),
        forall|r: ResumeOk| #[trigger]
            says_resume_ok(*value, r) ==> resume_ok_of(*value) == Ok::<ResumeOk, Seq<char>>(r),
{
    if let Some(first) = item(value, 0) {
        return read_resume_ok_items(value, first);
    }
    let replay_bytes = match member(value, "replay_bytes") {
        Some(m) => match read_size(m) {
            Ok(n) => Some(n),
            Err(why) => {
                return Err(why);
            },
        },
        None => None,
    };
    let session_id = match member(value, "session_id") {
        Some(m) => match read_uuid(m) {
            Ok(id) => Some(id),
            Err(why) => {
                return Err(why);
            },
        },
        None => None,
    };
    match session_id {
        None => Err("missing field `session_id`".to_owned()),
        Some(id) => match replay_bytes {
            None => Err("missing field `replay_bytes`".to_owned()),
            Some(replay_bytes) => Ok(ResumeOk { session_id: Uuid::from_u128(id), replay_bytes }),
        },
    }
}

/// A message from the server, with what it carries if it is `AUTH_OK` or `RESUME_OK`.
#[derive(Debug)]
pub struct ServerFrame {
    value: serde_json::Value,
    auth_ok: Result<AuthOk, String>,
    resume_ok: Result<ResumeOk, String>,
}

impl View for ServerFrame {
    type V = serde_json::Value;

    closed spec fn view(&self) -> serde_json::Value {
        self.value
    }
}

impl ServerFrame {
    #[verifier::type_invariant]
    closed spec fn inv(&self) -> bool {
        &&& is_auth_reading(self.auth_ok, auth_ok_of(self.value))
        &&& is_resume_reading(self.resume_ok, resume_ok_of(self.value))
        &&& is_understood(self.value)
    }

    /// How long the token to resume the session lives, if the message carries one.
    pub closed spec fn lifetime(&self) -> Option<u64> {
        match self.auth_ok {
            Ok(a) => Some(a.resume_token_expires_in_seconds),
            Err(_) => None,
        }
    }

    /// Reads a message.
    pub fn read(value: serde_json::Value) -> (frame: ServerFrame)
        ensures
            frame@ == value,
            frame.lifetime() == match auth_ok_of(value) {
                Ok(a) => Some(a.resume_token_expires_in_seconds),
                Err(_) => None,
            },
    {
        let auth_ok = read_auth_ok(&value);
        let resume_ok = read_resume_ok(&value);
        ServerFrame { value, auth_ok, resume_ok }
    }

    /// How long the token to resume the session lives, if the message carries one.
    pub fn lifetime_seconds(&self) -> (secs: Option<u64>)
        ensures
            secs == self.lifetime(),
    {
        match &self.auth_ok {
            Ok(a) => Some(a.resume_token_expires_in_seconds),
            Err(_) => None,
        }
    }

    /// The message, and what it carries read as `AUTH_OK` and as `RESUME_OK`.
    pub(crate) fn into_parts(self) -> (parts: (
        serde_json::Value,
        Result<AuthOk, String>,
        Result<ResumeOk, String>,
    ))
        ensures
            parts.0 == self@,
            is_auth_reading(parts.1, auth_ok_of(self@)),
            is_resume_reading(parts.2, resume_ok_of(self@)),
            is_understood(self@),
            parts.1 matches Ok(a) ==> self.lifetime() == Some(a.resume_token_expires_in_seconds),
    {
        proof {
            use_type_invariant(&self);
        }
        (self.value, self.auth_ok, self.resume_ok)
    }
}

/// What a message carries that lets a client in: it is read from an object exactly if the session,
/// the token and its lifetime are all there and are an identifier, a text and a number.
pub proof fn law_auth_ok_is_read(value: serde_json::Value)
    requires
        json_item(value, 0) is None,
    ensures
        ({
            let id = json_member(value, "session_id"@);
            let token = json_member(value, "resume_token"@);
            let expiry = json_member(value, "resume_token_expires_in_seconds"@);
            let read = auth_ok_of(value);
            &&& read is Ok <==> {
                &&& id is Some && json_as_str(id->0) is Some && uuid_parse(json_as_str(id->0)->0)
                    is Ok
                &&& token is Some && json_as_str(token->0) is Some
                &&& expiry is Some && json_as_u64(expiry->0) is Some
            }
            &&& read matches Ok(a) ==> {
                &&& uuid_parse(json_as_str(id->0)->0) == Ok::<u128, Seq<char>>(a.session_id.value)
                &&& json_as_str(token->0) == Some(a.resume_token)
                &&& json_as_u64(expiry->0) == Some(a.resume_token_expires_in_seconds)
            }
        }),
{
}

/// What a message carries that resumes a session: it is read from an object exactly if the session
/// and the number of bytes are there and are an identifier and a size.
pub proof fn law_resume_ok_is_read(value: serde_json::Value)
    requires
        json_item(value, 0) is None,
    ensures
        ({
            let id = json_member(value, "session_id"@);
            let size = json_member(value, "replay_bytes"@);
            let read = resume_ok_of(value);
            &&& read is Ok <==> {
                &&& id is Some && json_as_str(id->0) is Some && uuid_parse(json_as_str(id->0)->0)
                    is Ok
                &&& size is Some && json_as_u64(size->0) is Some && json_as_u64(size->0)->0
                    <= usize::MAX
            }
            &&& read matches Ok(r) ==> {
                &&& uuid_parse(json_as_str(id->0)->0) == Ok::<u128, Seq<char>>(r.session_id.value)
                &&& json_as_u64(size->0) == Some(r.replay_bytes as u64)
            }
        }),
{
}

} // verus!
