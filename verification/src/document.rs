//! JSON objects that are written field by field.

#[allow(unused_imports)]
use crate::json::{
    are_plain_members, is_flat, is_plain, json_as_bool, json_as_str, json_as_u64, json_display,
    json_item, json_member, compact, indented, is_scalar, lists, members_of, object_bytes,
    spells,
};
use crate::json::{
    display_json, list_value, number_value, object_value, text_value, truth_value, write_object,
    write_pretty_object,
};
#[allow(unused_imports)]
use crate::text::texts;
use vstd::prelude::*;
#[allow(unused_imports)]
use vstd::utf8::encode_utf8;

verus! {

/// What a field holds.
#[derive(Debug)]
pub enum Item {
    Text(String),
    Number(u64),
    Truth(bool),
    List(Vec<String>),
    Document(serde_json::Value),
}

/// What a field holds, with texts as sequences of characters.
#[verifier::ext_equal]
pub enum Field {
    Text(Seq<char>),
    Number(u64),
    Truth(bool),
    List(Seq<Seq<char>>),
    Document(serde_json::Value),
}

impl View for Item {
    type V = Field;

    open spec fn view(&self) -> Field {
        match self {
            Item::Text(t) => Field::Text(t@),
            Item::Number(n) => Field::Number(*n),
            Item::Truth(b) => Field::Truth(*b),
            Item::List(l) => Field::List(texts(l@)),
            Item::Document(v) => Field::Document(*v),
        }
    }
}

/// Whether a document is what a field holds.
pub open spec fn holds(value: serde_json::Value, field: Field) -> bool {
    match field {
        Field::Text(t) => json_as_str(value) == Some(t),
        Field::Number(n) => json_as_u64(value) == Some(n),
        Field::Truth(b) => json_as_bool(value) == Some(b),
        Field::List(l) => lists(value, l),
        Field::Document(v) => value == v,
    }
}

/// Whether no other field has the key of this one.
pub open spec fn is_only(fields: Seq<(Seq<char>, Field)>, i: int) -> bool {
    forall|j: int| 0 <= j < fields.len() && j != i ==> (#[trigger] fields[j]).0 != fields[i].0
}

/// Whether no two fields have the same key.
pub open spec fn distinct_keys(fields: Seq<(Seq<char>, Field)>) -> bool {
    forall|i: int, j: int|
        0 <= i < j < fields.len() ==> (#[trigger] fields[i]).0 != (#[trigger] fields[j]).0
}

/// Whether a document is the object with these fields, whose keys are different.
#[verifier::opaque]
pub open spec fn has_fields(value: serde_json::Value, fields: Seq<(Seq<char>, Field)>) -> bool {
    &&& forall|i: int|
        0 <= i < fields.len() && is_only(fields, i) ==> {
            &&& json_member(value, (#[trigger] fields[i]).0) is Some
            &&& holds(json_member(value, fields[i].0)->0, fields[i].1)
        }
    &&& forall|key: Seq<char>|
        (forall|j: int| 0 <= j < fields.len() ==> (#[trigger] fields[j]).0 != key) ==> (
        #[trigger] json_member(value, key)) is None
}

/// The fields that items stand for.
pub open spec fn fields_of(items: Seq<(&'static str, Item)>) -> Seq<(Seq<char>, Field)> {
    items.map_values(|f: (&'static str, Item)| (f.0@, f.1@))
}

/// The document that a field holds.
fn item_value(item: Item) -> (value: serde_json::Value)
    ensures
        holds(value, item@),
{
    match item {
        Item::Text(t) => text_value(t.as_str()),
        Item::Number(n) => number_value(n),
        Item::Truth(b) => truth_value(b),
        Item::List(l) => list_value(l),
        Item::Document(v) => v,
    }
}

/// Whether members are what fields hold, in the same order.
pub open spec fn hold_fields(
    members: Seq<(Seq<char>, serde_json::Value)>,
    fields: Seq<(Seq<char>, Field)>,
) -> bool {
    &&& members.len() == fields.len()
    &&& forall|i: int|
        0 <= i < fields.len() ==> (#[trigger] members[i]).0 == fields[i].0 && holds(
            members[i].1,
            fields[i].1,
        )
}

/// The members that items stand for.
fn members(items: Vec<(&'static str, Item)>) -> (members: Vec<(String, serde_json::Value)>)
    ensures
        hold_fields(members_of(members@), fields_of(items@)),
{
    let ghost fields = fields_of(items@);
    let ghost source = items@;
    let mut members: Vec<(String, serde_json::Value)> = Vec::new();
    for entry in it: items
        invariant
            it.seq() == source,
            fields == fields_of(source),
            members@.len() == it.index(),
            forall|k: int|
                0 <= k < members@.len() ==> (#[trigger] members@[k]).0@ == fields[k].0 && holds(
                    members@[k].1,
                    fields[k].1,
                ),
    {
        let ghost at = it.index() as int;
        assert(fields[at] == (entry.0@, entry.1@));
        let (key, item) = entry;
        members.push((key.to_owned(), item_value(item)));
    }
    members
}

/// The object with these fields.
pub fn document(items: Vec<(&'static str, Item)>) -> (value: serde_json::Value)
    ensures
        has_fields(value, fields_of(items@)),
{
    let ghost fields = fields_of(items@);
    let members = members(items);
    let ghost done = members@;
    assert forall|k: int| 0 <= k < done.len() implies (#[trigger] done[k]).0@ == fields[k].0
        && holds(done[k].1, fields[k].1) by {
        assert(members_of(done)[k] == (done[k].0@, done[k].1));
    }
    reveal(has_fields);
    let value = object_value(members);
    assert(done.len() == fields.len());
    assert forall|i: int| 0 <= i < fields.len() && is_only(fields, i) implies {
        &&& json_member(value, (#[trigger] fields[i]).0) is Some
        &&& holds(json_member(value, fields[i].0)->0, fields[i].1)
    } by {
        assert(done[i].0@ == fields[i].0);
        assert forall|j: int| 0 <= j < done.len() && j != i implies (#[trigger] done[j]).0@
            != done[i].0@ by {
            assert(fields[j].0 != fields[i].0);
        }
    }
    assert forall|key: Seq<char>|
        (forall|j: int| 0 <= j < fields.len() ==> (#[trigger] fields[j]).0 != key) implies (
    #[trigger] json_member(value, key)) is None by {
        assert forall|j: int| 0 <= j < done.len() implies (#[trigger] done[j]).0@ != key by {
            assert(fields[j].0 != key);
        }
    }
    value
}

/// Whether a text is the compact text of the object with these fields, in this order.
pub open spec fn is_line_of(text: Seq<char>, fields: Seq<(Seq<char>, Field)>) -> bool {
    exists|members: Seq<(Seq<char>, serde_json::Value)>|
        hold_fields(members, fields) && encode_utf8(text) == #[trigger] object_bytes(
            compact(),
            members,
        )
}

/// Whether bytes are the indented text of the object with these fields, in this order.
pub open spec fn is_sheet_of(bytes: Seq<u8>, fields: Seq<(Seq<char>, Field)>) -> bool {
    exists|members: Seq<(Seq<char>, serde_json::Value)>|
        hold_fields(members, fields) && bytes == #[trigger] object_bytes(indented(), members)
}

/// The compact text of the object with these fields, in this order.
pub(crate) fn line(items: Vec<(&'static str, Item)>) -> (text: Result<String, String>)
    requires
        items@.len() > 0,
    ensures
        text is Ok && is_line_of(text->Ok_0@, fields_of(items@)),
{
    write_object(members(items))
}

/// The indented text of the object with these fields, in this order.
pub(crate) fn sheet(items: Vec<(&'static str, Item)>) -> (text: Result<Vec<u8>, String>)
    requires
        items@.len() > 0,
        forall|i: int|
            0 <= i < items@.len() ==> is_single(fields_of(items@)[i].1),
    ensures
        text is Ok && is_sheet_of(text->Ok_0@, fields_of(items@)),
{
    let ghost fields = fields_of(items@);
    let members = members(items);
    assert forall|i: int| 0 <= i < members@.len() implies is_scalar((#[trigger] members@[i]).1) by {
        assert(members_of(members@)[i] == (members@[i].0@, members@[i].1));
        assert(is_single(fields[i].1));
    }
    write_pretty_object(members)
}

/// Whether a field holds a text, a number or a truth value.
pub open spec fn is_single(field: Field) -> bool {
    match field {
        Field::Text(_) | Field::Number(_) | Field::Truth(_) => true,
        _ => false,
    }
}

/// The compact text of a document.
pub fn document_text(value: &serde_json::Value) -> (text: String)
    ensures
        text@ == json_display(*value),
        is_flat(*value) ==> spells(encode_utf8(text@), *value),
{
    display_json(value)
}

/// The field at a position is found under its key, if no two fields have the same key.
pub proof fn lemma_field(value: serde_json::Value, fields: Seq<(Seq<char>, Field)>, i: int)
    requires
        has_fields(value, fields),
        distinct_keys(fields),
        0 <= i < fields.len(),
    ensures
        json_member(value, fields[i].0) is Some,
        holds(json_member(value, fields[i].0)->0, fields[i].1),
{
    reveal(has_fields);
    assert(is_only(fields, i)) by {
        assert forall|j: int| 0 <= j < fields.len() && j != i implies (#[trigger] fields[j]).0
            != fields[i].0 by {
            if j < i {
                assert(fields[j].0 != fields[i].0);
            } else {
                assert(fields[i].0 != fields[j].0);
            }
        }
    }
}

/// Whether a field holds no other document than a text, a number, a truth value or a list of texts.
pub open spec fn is_simple(field: Field) -> bool {
    match field {
        Field::Document(_) => false,
        Field::List(l) => l.len() > 0,
        _ => true,
    }
}

/// What simple fields hold is plain.
pub proof fn lemma_simple_is_plain(value: serde_json::Value, field: Field)
    requires
        holds(value, field),
        is_simple(field),
    ensures
        is_plain(value),
{
    if let Field::List(l) = field {
        assert(lists(value, l));
        assert(json_item(value, 0) is Some);
    }
}

/// Members that are what simple fields hold are plain, and have different keys if the fields have.
pub proof fn lemma_simple_members(
    members: Seq<(Seq<char>, serde_json::Value)>,
    fields: Seq<(Seq<char>, Field)>,
)
    requires
        hold_fields(members, fields),
        distinct_keys(fields),
        forall|i: int| 0 <= i < fields.len() ==> is_simple((#[trigger] fields[i]).1),
    ensures
        are_plain_members(members),
{
    assert forall|i: int| 0 <= i < members.len() implies is_plain((#[trigger] members[i]).1) by {
        assert(is_simple(fields[i].1));
        lemma_simple_is_plain(members[i].1, fields[i].1);
    }
    assert forall|i: int, j: int| 0 <= i < j < members.len() implies (#[trigger] members[i]).0 != (
    #[trigger] members[j]).0 by {
        assert(fields[i].0 != fields[j].0);
    }
}

/// An object with simple fields is flat.
pub proof fn lemma_simple_fields_are_flat(
    value: serde_json::Value,
    fields: Seq<(Seq<char>, Field)>,
)
    requires
        has_fields(value, fields),
        distinct_keys(fields),
        fields.len() > 0,
        forall|i: int| 0 <= i < fields.len() ==> is_simple((#[trigger] fields[i]).1),
    ensures
        is_flat(value),
{
    reveal(has_fields);
    lemma_field(value, fields, 0);
    assert(json_member(value, fields[0].0) is Some);
    assert forall|key: Seq<char>|
        #![trigger json_member(value, key)]
        json_member(value, key) is Some implies is_plain(json_member(value, key)->0) by {
        let j = choose|j: int| 0 <= j < fields.len() && (#[trigger] fields[j]).0 == key;
        lemma_field(value, fields, j);
        assert(is_simple(fields[j].1));
        lemma_simple_is_plain(json_member(value, key)->0, fields[j].1);
    }
}

} // verus!
