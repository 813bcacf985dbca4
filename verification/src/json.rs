//! JSON documents: what the control plane reads from them.

#[allow(unused_imports)]
use crate::ids::{uuid_parse, uuid_text};
#[allow(unused_imports)]
use crate::text::texts;
use serde::Serializer;
use vstd::prelude::*;
#[allow(unused_imports)]
use vstd::utf8::encode_utf8;

verus! {

/// A parsed JSON document.
#[verifier::external_type_specification]
#[verifier::external_body]
pub struct ExValue(serde_json::Value);

/// What `serde_json::from_slice` reads from bytes, or the text of its error.
pub uninterp spec fn json_parse(bytes: Seq<u8>) -> Result<serde_json::Value, Seq<char>>;

/// The compact text of a document, as `serde_json::to_vec` writes it.
pub uninterp spec fn json_bytes(value: serde_json::Value) -> Seq<u8>;

/// The compact text of a document, as its `Display` writes it.
pub uninterp spec fn json_display(value: serde_json::Value) -> Seq<char>;

/// The member of an object under `key`, if the document is an object with such a member.
pub uninterp spec fn json_member(value: serde_json::Value, key: Seq<char>) -> Option<
    serde_json::Value,
>;

/// The item of an array at a position, if the document is an array with such an item.
pub uninterp spec fn json_item(value: serde_json::Value, at: nat) -> Option<serde_json::Value>;

/// The text that a document is, if it is a text.
pub uninterp spec fn json_as_str(value: serde_json::Value) -> Option<Seq<char>>;

/// The truth value that a document is, if it is one.
pub uninterp spec fn json_as_bool(value: serde_json::Value) -> Option<bool>;

/// The number that a document is, if it is an integer from 0 to `u64::MAX`.
pub uninterp spec fn json_as_u64(value: serde_json::Value) -> Option<u64>;

/// The document that is nothing but a text.
pub uninterp spec fn json_text(text: Seq<char>) -> serde_json::Value;

/// What `serde_json::from_value` says of a document that is no text, where it should be one.
pub uninterp spec fn json_text_error(value: serde_json::Value) -> Seq<char>;

/// What `serde_json::from_value` says of a document that is no `u64`, where it should be one.
pub uninterp spec fn json_number_error(value: serde_json::Value) -> Seq<char>;

/// What `serde_json::from_value` says of a document that is no `usize`, where it should be one.
pub uninterp spec fn json_size_error(value: serde_json::Value) -> Seq<char>;

/// What `serde_json::from_value` says of a document that is no text, where it should be an
/// identifier.
pub uninterp spec fn json_uuid_error(value: serde_json::Value) -> Seq<char>;

/// The text that an object has under `key`, if it has one.
pub open spec fn json_str(value: serde_json::Value, key: Seq<char>) -> Option<Seq<char>> {
    match json_member(value, key) {
        Some(member) => json_as_str(member),
        None => None,
    }
}

/// The truth value that an object has under `key`, if it has one.
pub open spec fn json_bool(value: serde_json::Value, key: Seq<char>) -> Option<bool> {
    match json_member(value, key) {
        Some(member) => json_as_bool(member),
        None => None,
    }
}

/// The number that an object has under `key`, if it has one.
pub open spec fn json_u64(value: serde_json::Value, key: Seq<char>) -> Option<u64> {
    match json_member(value, key) {
        Some(member) => json_as_u64(member),
        None => None,
    }
}

/// Whether a document is an array of texts, with one text at least.
pub open spec fn is_text_list(value: serde_json::Value) -> bool {
    &&& json_item(value, 0) is Some
    &&& forall|at: nat|
        (#[trigger] json_item(value, at)) matches Some(item) ==> json_as_str(item) is Some
}

/// Whether a document is a text, a number, a truth value or a list of texts.
pub open spec fn is_plain(value: serde_json::Value) -> bool {
    ||| json_as_str(value) is Some
    ||| json_as_u64(value) is Some
    ||| json_as_bool(value) is Some
    ||| is_text_list(value)
}

/// Whether a document is an object with one member at least, all of whose members are plain.
pub open spec fn is_flat(value: serde_json::Value) -> bool {
    &&& exists|key: Seq<char>| #[trigger] json_member(value, key) is Some
    &&& forall|key: Seq<char>|
        #![trigger json_member(value, key)]
        json_member(value, key) is Some ==> is_plain(json_member(value, key)->0)
}

/// Whether bytes are the compact text of a document.
pub open spec fn writes(bytes: Seq<u8>, value: serde_json::Value) -> bool {
    ||| bytes == json_bytes(value)
    ||| bytes == encode_utf8(json_display(value))
}

/// Whether two documents have the same texts and numbers under the same keys.
pub open spec fn reads_alike(sent: serde_json::Value, received: serde_json::Value) -> bool {
    &&& forall|key: Seq<char>| #[trigger] json_str(received, key) == json_str(sent, key)
    &&& forall|key: Seq<char>| #[trigger] json_u64(received, key) == json_u64(sent, key)
}

/// Keys and members, with the keys as sequences of characters.
pub open spec fn members_of(members: Seq<(String, serde_json::Value)>) -> Seq<
    (Seq<char>, serde_json::Value),
> {
    members.map_values(|m: (String, serde_json::Value)| (m.0@, m.1))
}

/// The bytes of the text of a document that is nothing but a text.
pub open spec fn text_bytes(text: Seq<char>) -> Seq<u8> {
    encode_utf8(json_display(json_text(text)))
}

/// The bytes of the compact text of a document.
pub open spec fn value_bytes(value: serde_json::Value) -> Seq<u8> {
    encode_utf8(json_display(value))
}

/// Whether a byte is white space between the parts of a document.
pub open spec fn is_space(b: u8) -> bool {
    b == 0x20 || b == 0x0a || b == 0x0d || b == 0x09
}

/// Whether all bytes are white space.
pub open spec fn all_space(bytes: Seq<u8>) -> bool {
    forall|i: int| 0 <= i < bytes.len() ==> is_space(#[trigger] bytes[i])
}

/// The white space in the text of an object: before each key, before each member, and at the end.
#[verifier::ext_equal]
pub struct Layout {
    pub before_key: Seq<u8>,
    pub before_member: Seq<u8>,
    pub at_end: Seq<u8>,
}

impl Layout {
    /// Whether it is white space.
    pub open spec fn wf(self) -> bool {
        all_space(self.before_key) && all_space(self.before_member) && all_space(self.at_end)
    }
}

/// No white space.
pub open spec fn compact() -> Layout {
    Layout { before_key: Seq::empty(), before_member: Seq::empty(), at_end: Seq::empty() }
}

/// Each member on a line of its own, two spaces in.
pub open spec fn indented() -> Layout {
    Layout {
        before_key: seq![0x0a, 0x20, 0x20],
        before_member: seq![0x20],
        at_end: seq![0x0a],
    }
}

/// The text of an object from the key at a position on.
pub open spec fn entries(
    layout: Layout,
    members: Seq<(Seq<char>, serde_json::Value)>,
    from: int,
) -> Seq<u8>
    decreases members.len() - from,
{
    if from < 0 || from >= members.len() {
        Seq::empty()
    } else {
        (layout.before_key + text_bytes(members[from].0)) + (seq![0x3au8] + ((layout.before_member
            + value_bytes(members[from].1)) + (if from + 1 == members.len() {
            layout.at_end + seq![0x7du8]
        } else {
            seq![0x2cu8] + entries(layout, members, from + 1)
        })))
    }
}

/// The text of the object with these members in this order.
pub open spec fn object_bytes(
    layout: Layout,
    members: Seq<(Seq<char>, serde_json::Value)>,
) -> Seq<u8> {
    seq![0x7bu8] + entries(layout, members, 0)
}

/// Whether these are the members of a document, each of them once.
pub open spec fn lists_members(
    value: serde_json::Value,
    members: Seq<(Seq<char>, serde_json::Value)>,
) -> bool {
    &&& are_plain_members(members)
    &&& forall|i: int|
        0 <= i < members.len() ==> json_member(value, (#[trigger] members[i]).0) == Some(
            members[i].1,
        )
    &&& forall|key: Seq<char>|
        (#[trigger] json_member(value, key)) is Some ==> exists|i: int|
            0 <= i < members.len() && (#[trigger] members[i]).0 == key
}

/// Whether bytes are the compact text of a flat document, with its members in some order.
pub open spec fn spells(bytes: Seq<u8>, value: serde_json::Value) -> bool {
    exists|members: Seq<(Seq<char>, serde_json::Value)>|
        #![trigger object_bytes(compact(), members)]
        members.len() > 0 && lists_members(value, members) && bytes == object_bytes(
            compact(),
            members,
        )
}

/// Whether all members are plain, and no two have the same key.
pub open spec fn are_plain_members(members: Seq<(Seq<char>, serde_json::Value)>) -> bool {
    &&& forall|i: int| 0 <= i < members.len() ==> is_plain((#[trigger] members[i]).1)
    &&& forall|i: int, j: int|
        0 <= i < j < members.len() ==> (#[trigger] members[i]).0 != (#[trigger] members[j]).0
}

/// Whether a document is a text, a number or a truth value.
pub open spec fn is_scalar(value: serde_json::Value) -> bool {
    ||| json_as_str(value) is Some
    ||| json_as_u64(value) is Some
    ||| json_as_bool(value) is Some
}

/// Calls `serde_json::from_slice`. From the text of a flat or plain document that document is read.
/// One that is read from the text of any other has the same texts and numbers under the same keys, but the
/// text of one that is nested too deeply cannot be read.
#[verifier::external_body]
pub(crate) fn parse_json(bytes: &[u8]) -> (read: Result<serde_json::Value, String>)
    ensures
        match read {
            Ok(value) => json_parse(bytes@) == Ok::<serde_json::Value, Seq<char>>(value),
            Err(why) => json_parse(bytes@) == Err::<serde_json::Value, Seq<char>>(why@),
        },
        forall|value: serde_json::Value|
            #![trigger writes(bytes@, value)]
            writes(bytes@, value) && (is_flat(value) || is_plain(value)) ==> read is Ok
                && read->Ok_0 == value,
        forall|value: serde_json::Value, key: Seq<char>|
            #![trigger writes(bytes@, value), json_str(value, key)]
            writes(bytes@, value) && read is Ok ==> json_str(read->Ok_0, key) == json_str(
                value,
                key,
            ),
        forall|value: serde_json::Value, key: Seq<char>|
            #![trigger writes(bytes@, value), json_u64(value, key)]
            writes(bytes@, value) && read is Ok ==> json_u64(read->Ok_0, key) == json_u64(
                value,
                key,
            ),
{
    serde_json::from_slice(bytes).map_err(|e| e.to_string())
}

/// Calls `serde_json::to_vec`, which succeeds on every document: its keys are texts, and writing
/// to memory does not fail. Of a flat document it writes each member once.
#[verifier::external_body]
pub(crate) fn write_json(value: &serde_json::Value) -> (text: Result<Vec<u8>, String>)
    ensures
        text is Ok && text->Ok_0@ == json_bytes(*value),
        is_flat(*value) ==> spells(text->Ok_0@, *value),
{
    serde_json::to_vec(value).map_err(|e| e.to_string())
}

/// Calls `collect_map` of `serde_json::Serializer::new`, which writes the members in the order in
/// which they are given. It succeeds: the keys are texts, writing to memory does not fail, and JSON
/// text is UTF-8.
#[verifier::external_body]
pub(crate) fn write_object(members: Vec<(String, serde_json::Value)>) -> (text: Result<
    String,
    String,
>)
    ensures
        text is Ok,
        members@.len() > 0 ==> encode_utf8(text->Ok_0@) == object_bytes(
            compact(),
            members_of(members@),
        ),
{
    let mut out: Vec<u8> = Vec::new();
    serde_json::Serializer::new(&mut out).collect_map(members).map_err(|e| e.to_string())?;
    String::from_utf8(out).map_err(|e| e.to_string())
}

/// Calls `collect_map` of `serde_json::Serializer::pretty`, which writes the members in the order
/// in which they are given. It succeeds for the same reasons. How it writes a member that is an
/// array or an object is not said.
#[verifier::external_body]
pub(crate) fn write_pretty_object(members: Vec<(String, serde_json::Value)>) -> (text: Result<
    Vec<u8>,
    String,
>)
    ensures
        text is Ok,
        members@.len() > 0 && (forall|i: int|
            0 <= i < members@.len() ==> is_scalar((#[trigger] members@[i]).1))
            ==> text->Ok_0@ == object_bytes(indented(), members_of(members@)),
{
    let mut out: Vec<u8> = Vec::new();
    serde_json::Serializer::pretty(&mut out).collect_map(members).map_err(|e| e.to_string())?;
    Ok(out)
}

/// Calls `to_string` on a document, which writes its compact text. Of a flat document it writes each
/// member once.
#[verifier::external_body]
pub(crate) fn display_json(value: &serde_json::Value) -> (text: String)
    ensures
        text@ == json_display(*value),
        is_flat(*value) ==> spells(encode_utf8(text@), *value),
{
    value.to_string()
}

/// Calls `serde_json::Value::get` with a key.
#[verifier::external_body]
pub(crate) fn member<'a>(value: &'a serde_json::Value, key: &str) -> (found: Option<
    &'a serde_json::Value,
>)
    ensures
        match found {
            Some(m) => json_member(*value, key@) == Some(*m),
            None => json_member(*value, key@) is None,
        },
{
    value.get(key)
}

/// Calls `serde_json::Value::get` with a position. Behind a position without an item there is no
/// item either, and no array reaches the last position that can be written. A document with items
/// has no members.
#[verifier::external_body]
pub(crate) fn item<'a>(value: &'a serde_json::Value, at: usize) -> (found: Option<&'a serde_json::Value>)
    ensures
        match found {
            Some(m) => json_item(*value, at as nat) == Some(*m),
            None => json_item(*value, at as nat) is None,
        },
        found is None ==> forall|k: nat| k >= at ==> (#[trigger] json_item(*value, k)) is None,
        at == usize::MAX ==> found is None,
        found is Some ==> forall|key: Seq<char>| (#[trigger] json_member(*value, key)) is None,
{
    value.get(at)
}

/// Calls `serde_json::Value::as_str`.
#[verifier::external_body]
fn as_str<'a>(value: &'a serde_json::Value) -> (text: Option<&'a str>)
    ensures
        match text {
            Some(s) => json_as_str(*value) == Some(s@),
            None => json_as_str(*value) is None,
        },
{
    value.as_str()
}

/// Calls `serde_json::Value::as_bool`.
#[verifier::external_body]
fn as_bool(value: &serde_json::Value) -> (truth: Option<bool>)
    ensures
        truth == json_as_bool(*value),
{
    value.as_bool()
}

/// Calls `serde_json::from_value` for a `String`. It reads a text, and refuses any other document.
#[verifier::external_body]
pub(crate) fn read_text(value: &serde_json::Value) -> (read: Result<String, String>)
    ensures
        match json_as_str(*value) {
            Some(text) => read is Ok && read->Ok_0@ == text,
            None => read is Err && read->Err_0@ == json_text_error(*value),
        },
{
    serde_json::from_value(value.clone()).map_err(|e| e.to_string())
}

/// Calls `serde_json::from_value` for a `u64`. It reads an integer from 0 to `u64::MAX`, and
/// refuses any other document.
#[verifier::external_body]
pub(crate) fn read_number(value: &serde_json::Value) -> (read: Result<u64, String>)
    ensures
        match json_as_u64(*value) {
            Some(n) => read is Ok && read->Ok_0 == n,
            None => read is Err && read->Err_0@ == json_number_error(*value),
        },
{
    serde_json::from_value(value.clone()).map_err(|e| e.to_string())
}

/// Calls `serde_json::from_value` for a `usize`. It reads an integer from 0 to `usize::MAX`, and
/// refuses any other document.
#[verifier::external_body]
pub(crate) fn read_size(value: &serde_json::Value) -> (read: Result<usize, String>)
    ensures
        match json_as_u64(*value) {
            Some(n) => if n <= usize::MAX {
                read is Ok && read->Ok_0 == n
            } else {
                read is Err && read->Err_0@ == json_size_error(*value)
            },
            None => read is Err && read->Err_0@ == json_size_error(*value),
        },
{
    serde_json::from_value(value.clone()).map_err(|e| e.to_string())
}

/// Calls `serde_json::from_value` for a `uuid::Uuid`. It reads a text as `Uuid::parse_str` does,
/// whose complaint it repeats, and refuses any other document. The canonical form of an identifier
/// is read as that identifier.
#[verifier::external_body]
pub(crate) fn read_uuid(value: &serde_json::Value) -> (read: Result<u128, String>)
    ensures
        match json_as_str(*value) {
            Some(text) => match uuid_parse(text) {
                Ok(id) => read is Ok && read->Ok_0 == id,
                Err(why) => read is Err && read->Err_0@ == "UUID parsing failed: "@ + why,
            },
            None => read is Err && read->Err_0@ == json_uuid_error(*value),
        },
        forall|id: u128|
            #![trigger uuid_text(id)]
            json_as_str(*value) == Some(uuid_text(id)) ==> read is Ok && read->Ok_0 == id,
{
    let read: Result<uuid::Uuid, serde_json::Error> = serde_json::from_value(value.clone());
    read.map(|u| u.as_u128()).map_err(|e| e.to_string())
}

/// Calls `clone` on a document, which gives an equal one.
#[verifier::external_body]
fn clone_json(value: &serde_json::Value) -> (copy: serde_json::Value)
    ensures
        copy == *value,
{
    value.clone()
}

/// Calls `serde_json::Value::from` on a text. The document is that text.
#[verifier::external_body]
pub(crate) fn text_value(text: &str) -> (value: serde_json::Value)
    ensures
        value == json_text(text@),
        json_as_str(value) == Some(text@),
{
    serde_json::Value::from(text)
}

/// Calls `serde_json::Value::from` on a number. The document is that number.
#[verifier::external_body]
pub(crate) fn number_value(number: u64) -> (value: serde_json::Value)
    ensures
        json_as_u64(value) == Some(number),
{
    serde_json::Value::from(number)
}

/// Calls `serde_json::Value::from` on a truth value. The document is that truth value.
#[verifier::external_body]
pub(crate) fn truth_value(truth: bool) -> (value: serde_json::Value)
    ensures
        json_as_bool(value) == Some(truth),
{
    serde_json::Value::from(truth)
}

/// Whether a document is the array of these texts.
pub open spec fn lists(value: serde_json::Value, list: Seq<Seq<char>>) -> bool {
    forall|at: nat|
        match #[trigger] json_item(value, at) {
            Some(item) => at < list.len() && json_as_str(item) == Some(list[at as int]),
            None => at >= list.len(),
        }
}

/// Calls `serde_json::Value::from` on texts. The document is the array of them.
#[verifier::external_body]
pub(crate) fn list_value(list: Vec<String>) -> (value: serde_json::Value)
    ensures
        lists(value, texts(list@)),
{
    serde_json::Value::from(list)
}

/// Calls the `FromIterator` of `serde_json::Value` for keys and members. The document is an object
/// that has each member whose key is given once, and no member whose key is not given. Which
/// member it has under a key that is given more than once is not said.
#[verifier::external_body]
pub(crate) fn object_value(members: Vec<(String, serde_json::Value)>) -> (value: serde_json::Value)
    ensures
        forall|i: int|
            0 <= i < members@.len() && (forall|j: int|
                0 <= j < members@.len() && j != i ==> (#[trigger] members@[j]).0@
                    != members@[i].0@) ==> json_member(value, (#[trigger] members@[i]).0@) == Some(
                members@[i].1,
            ),
        forall|key: Seq<char>|
            (forall|j: int| 0 <= j < members@.len() ==> (#[trigger] members@[j]).0@ != key)
                ==> (#[trigger] json_member(value, key)) is None,
{
    members.into_iter().collect()
}

/// Whether some item of an array is no text.
pub open spec fn has_other_items(value: serde_json::Value) -> bool {
    exists|at: nat|
        (#[trigger] json_item(value, at)) is Some && json_as_str(json_item(value, at)->0) is None
}

/// The texts of an array of texts. A document that is no array counts as an empty one.
pub(crate) fn get_list(value: &serde_json::Value) -> (list: Option<Vec<String>>)
    ensures
        match list {
            Some(l) => lists(*value, texts(l@)),
            None => has_other_items(*value),
        },
{
    let mut list: Vec<String> = Vec::new();
    let mut i: usize = 0;
    loop
        invariant
            i == list@.len(),
            forall|at: nat|
                at < i ==> (#[trigger] json_item(*value, at)) is Some && json_as_str(
                    json_item(*value, at)->0,
                ) == Some(texts(list@)[at as int]),
        decreases usize::MAX - i,
    {
        match item(value, i) {
            None => {
                return Some(list);
            },
            Some(m) => match as_str(m) {
                None => {
                    return None;
                },
                Some(text) => {
                    let ghost before = texts(list@);
                    list.push(text.to_owned());
                    assert(texts(list@) =~= before.push(text@));
                    i += 1;
                },
            },
        }
    }
}

/// The member of an object under `key`.
pub(crate) fn get_member(value: &serde_json::Value, key: &str) -> (found: Option<serde_json::Value>)
    ensures
        found == json_member(*value, key@),
{
    match member(value, key) {
        Some(m) => Some(clone_json(m)),
        None => None,
    }
}

/// The text that an object has under `key`.
pub(crate) fn get_str<'a>(value: &'a serde_json::Value, key: &str) -> (text: Option<&'a str>)
    ensures
        match text {
            Some(s) => json_str(*value, key@) == Some(s@),
            None => json_str(*value, key@) is None,
        },
{
    match member(value, key) {
        Some(m) => as_str(m),
        None => None,
    }
}

/// The truth value that an object has under `key`.
pub(crate) fn get_bool(value: &serde_json::Value, key: &str) -> (truth: Option<bool>)
    ensures
        truth == json_bool(*value, key@),
{
    match member(value, key) {
        Some(m) => as_bool(m),
        None => None,
    }
}

} // verus!
