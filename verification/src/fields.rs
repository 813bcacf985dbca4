//! Documents that are read field by field. Keys and members are read by `serde_json`; what stands
//! between them is read here, so that a member that nobody asks for is skipped whatever it holds,
//! and a key that is given twice is noticed.

use crate::ids::Uuid;
#[allow(unused_imports)]
use crate::ids::{uuid_parse, uuid_text};
#[allow(unused_imports)]
use crate::json::{
    all_space, are_plain_members, compact, entries, is_plain, is_space, json_as_str, json_as_u64,
    json_member, json_str, json_u64, lists_members, object_bytes, spells, text_bytes, value_bytes,
    Layout,
};
use crate::text::{concat, str_eq};
use vstd::prelude::*;
use vstd::slice::slice_subrange;

verus! {

/// The text that bytes start with behind white space, and where it ends, as the first item of a
/// `serde_json::StreamDeserializer` for `String`.
pub uninterp spec fn json_next_text(bytes: Seq<u8>) -> Option<(Seq<char>, nat)>;

/// Where the document ends that bytes start with, as a `serde_json::StreamDeserializer` for
/// `IgnoredAny` finds it.
pub uninterp spec fn json_value_end(bytes: Seq<u8>) -> Option<nat>;

/// The text that bytes are, as `serde_json::from_slice` reads it, or what it complains of.
pub uninterp spec fn json_read_text(bytes: Seq<u8>) -> Result<Seq<char>, Seq<char>>;

/// The number that bytes are, as `serde_json::from_slice` reads it, or what it complains of.
pub uninterp spec fn json_read_number(bytes: Seq<u8>) -> Result<u64, Seq<char>>;

/// What `serde_json::from_slice` for `IgnoredAny` complains of in bytes that are no document.
pub uninterp spec fn json_fault(bytes: Seq<u8>) -> Option<Seq<char>>;

/// Whether a document that is no text, array or object may end before this byte.
pub open spec fn ends_value(b: u8) -> bool {
    is_space(b) || b == 0x2c || b == 0x7d || b == 0x5d
}

/// Calls `next` and `byte_offset` of the `serde_json::StreamDeserializer` for `String`. A text that
/// was written is read back, whatever follows it.
#[verifier::external_body]
fn next_text(bytes: &[u8]) -> (found: Option<(String, usize)>)
    ensures
        match found {
            Some((text, end)) => {
                &&& json_next_text(bytes@) == Some((text@, end as nat))
                &&& end <= bytes@.len()
            },
            None => json_next_text(bytes@) is None,
        },
        forall|space: Seq<u8>, text: Seq<char>, rest: Seq<u8>|
            #![trigger (space + text_bytes(text)) + rest]
            all_space(space) && bytes@ == (space + text_bytes(text)) + rest ==> found is Some
                && (found->Some_0).0@ == text && (found->Some_0).1 == space.len() + text_bytes(text).len(),
{
    let mut stream = serde_json::Deserializer::from_slice(bytes).into_iter::<String>();
    let text = stream.next()?.ok()?;
    Some((text, stream.byte_offset()))
}

/// Calls `next` and `byte_offset` of the `serde_json::StreamDeserializer` for `IgnoredAny`. It finds
/// the end of a plain document that was written, if what follows cannot belong to it.
#[verifier::external_body]
fn value_end(bytes: &[u8]) -> (found: Option<usize>)
    ensures
        match found {
            Some(end) => json_value_end(bytes@) == Some(end as nat) && end <= bytes@.len(),
            None => json_value_end(bytes@) is None,
        },
        forall|space: Seq<u8>, value: serde_json::Value, rest: Seq<u8>|
            #![trigger (space + value_bytes(value)) + rest]
            all_space(space) && is_plain(value) && rest.len() > 0 && ends_value(rest[0]) && bytes@
                == (space + value_bytes(value)) + rest ==> found is Some && found->0 == space.len()
                + value_bytes(value).len(),
{
    let mut stream =
        serde_json::Deserializer::from_slice(bytes).into_iter::<serde::de::IgnoredAny>();
    stream.next()?.ok()?;
    Some(stream.byte_offset())
}

/// Calls `serde_json::from_slice` for `String`. A text that was written is read back, and no other
/// plain document is.
#[verifier::external_body]
fn text_of(bytes: &[u8]) -> (read: Result<String, String>)
    ensures
        match read {
            Ok(text) => json_read_text(bytes@) == Ok::<Seq<char>, Seq<char>>(text@),
            Err(why) => json_read_text(bytes@) == Err::<Seq<char>, Seq<char>>(why@),
        },
        forall|space: Seq<u8>, value: serde_json::Value|
            #![trigger space + value_bytes(value)]
            all_space(space) && is_plain(value) && bytes@ == space + value_bytes(value)
                ==> match json_as_str(value) {
                Some(text) => read is Ok && read->Ok_0@ == text,
                None => read is Err,
            },
{
    serde_json::from_slice(bytes).map_err(|e| e.to_string())
}

/// Calls `serde_json::from_slice` for `u64`. A number that was written is read back.
#[verifier::external_body]
fn number_of(bytes: &[u8]) -> (read: Result<u64, String>)
    ensures
        match read {
            Ok(number) => json_read_number(bytes@) == Ok::<u64, Seq<char>>(number),
            Err(why) => json_read_number(bytes@) == Err::<u64, Seq<char>>(why@),
        },
        forall|space: Seq<u8>, value: serde_json::Value|
            #![trigger space + value_bytes(value)]
            all_space(space) && json_as_u64(value) is Some && bytes@ == space + value_bytes(value)
                ==> read is Ok && read->Ok_0 == json_as_u64(value)->0,
{
    serde_json::from_slice(bytes).map_err(|e| e.to_string())
}

/// Calls `serde_json::from_slice` for `IgnoredAny`, which reads any document.
#[verifier::external_body]
fn fault_of(bytes: &[u8]) -> (fault: Option<String>)
    ensures
        match fault {
            Some(why) => json_fault(bytes@) == Some(why@),
            None => json_fault(bytes@) is None,
        },
{
    let read: Result<serde::de::IgnoredAny, serde_json::Error> = serde_json::from_slice(bytes);
    read.err().map(|e| e.to_string())
}

/// What follows the white space that bytes start with.
pub open spec fn skip_space(bytes: Seq<u8>) -> Seq<u8>
    decreases bytes.len(),
{
    if bytes.len() > 0 && is_space(bytes[0]) {
        skip_space(bytes.skip(1))
    } else {
        bytes
    }
}

/// Nothing is added by skipping white space.
pub proof fn lemma_skip_space_len(bytes: Seq<u8>)
    ensures
        skip_space(bytes).len() <= bytes.len(),
    decreases bytes.len(),
{
    if bytes.len() > 0 && is_space(bytes[0]) {
        lemma_skip_space_len(bytes.skip(1));
    }
}

/// White space is skipped, and what follows it is not.
proof fn lemma_skip_space(space: Seq<u8>, rest: Seq<u8>)
    requires
        all_space(space),
        rest.len() == 0 || !is_space(rest[0]),
    ensures
        skip_space(space + rest) == rest,
    decreases space.len(),
{
    if space.len() == 0 {
        assert(space + rest =~= rest);
    } else {
        assert((space + rest)[0] == space[0]);
        assert((space + rest).skip(1) =~= space.skip(1) + rest);
        assert(all_space(space.skip(1))) by {
            assert forall|i: int| 0 <= i < space.skip(1).len() implies is_space(
                #[trigger] space.skip(1)[i],
            ) by {
                assert(space.skip(1)[i] == space[i + 1]);
            }
        }
        lemma_skip_space(space.skip(1), rest);
    }
}

/// Where the white space from a position on ends.
fn skip_space_at(bytes: &[u8], from: usize) -> (at: usize)
    requires
        from <= bytes@.len(),
    ensures
        from <= at <= bytes@.len(),
        bytes@.skip(at as int) == skip_space(bytes@.skip(from as int)),
{
    let mut at: usize = from;
    while at < bytes.len() && (bytes[at] == 0x20 || bytes[at] == 0x0a || bytes[at] == 0x0d
        || bytes[at] == 0x09)
        invariant
            from <= at <= bytes@.len(),
            skip_space(bytes@.skip(at as int)) == skip_space(bytes@.skip(from as int)),
        decreases bytes@.len() - at,
    {
        assert(bytes@.skip(at as int)[0] == bytes@[at as int]);
        assert(bytes@.skip(at as int).skip(1) =~= bytes@.skip(at + 1));
        at += 1;
    }
    if at < bytes.len() {
        assert(bytes@.skip(at as int)[0] == bytes@[at as int]);
    }
    at
}

/// The keys and members of an object whose text goes on with these bytes, if it is one. No comma
/// stands before the first key or behind the last member.
pub open spec fn members_after(bytes: Seq<u8>, first: bool) -> Option<
    Seq<(Seq<char>, Seq<u8>)>,
>
    decreases bytes.len(),
{
    match json_next_text(bytes) {
        None => {
            let end = skip_space(bytes);
            if first && end.len() > 0 && end[0] == 0x7d && skip_space(end.skip(1)).len() == 0 {
                Some(Seq::empty())
            } else {
                None
            }
        },
        Some((key, key_end)) => {
            let colon = skip_space(bytes.skip(key_end as int));
            if key_end > bytes.len() || colon.len() == 0 || colon[0] != 0x3a {
                None
            } else {
                match json_value_end(colon.skip(1)) {
                    None => None,
                    Some(end) => {
                        let entry = (key, colon.skip(1).take(end as int));
                        let next = skip_space(colon.skip(1).skip(end as int));
                        proof {
                            lemma_skip_space_len(bytes.skip(key_end as int));
                            lemma_skip_space_len(colon.skip(1).skip(end as int));
                        }
                        if end > colon.skip(1).len() || next.len() == 0 {
                            None
                        } else if next[0] == 0x2c {
                            preceded(entry, members_after(next.skip(1), false))
                        } else if next[0] == 0x7d && skip_space(next.skip(1)).len() == 0 {
                            Some(seq![entry])
                        } else {
                            None
                        }
                    },
                }
            }
        },
    }
}

/// An entry before others, if there are others.
pub open spec fn preceded(
    entry: (Seq<char>, Seq<u8>),
    more: Option<Seq<(Seq<char>, Seq<u8>)>>,
) -> Option<Seq<(Seq<char>, Seq<u8>)>> {
    match more {
        Some(entries) => Some(seq![entry] + entries),
        None => None,
    }
}

/// The keys and members of an object, if bytes are one.
pub open spec fn object_members(bytes: Seq<u8>) -> Option<Seq<(Seq<char>, Seq<u8>)>> {
    let start = skip_space(bytes);
    if start.len() > 0 && start[0] == 0x7b {
        members_after(start.skip(1), true)
    } else {
        None
    }
}

/// Keys and members as they were read, with the keys as sequences of characters.
pub open spec fn raw_members(found: Seq<(String, Vec<u8>)>) -> Seq<(Seq<char>, Seq<u8>)> {
    found.map_values(|m: (String, Vec<u8>)| (m.0@, m.1@))
}

/// Entries before others, if there are others.
pub open spec fn joined_members(
    done: Seq<(Seq<char>, Seq<u8>)>,
    more: Option<Seq<(Seq<char>, Seq<u8>)>>,
) -> Option<Seq<(Seq<char>, Seq<u8>)>> {
    match more {
        Some(entries) => Some(done + entries),
        None => None,
    }
}

/// Whether bytes are the text of an object with these members, which are plain and have different
/// keys.
pub open spec fn is_text_of(
    bytes: Seq<u8>,
    layout: Layout,
    members: Seq<(Seq<char>, serde_json::Value)>,
) -> bool {
    &&& layout.wf()
    &&& members.len() > 0
    &&& are_plain_members(members)
    &&& bytes == object_bytes(layout, members)
}

/// Whether the first members that were found are those that were written.
pub open spec fn found_first(
    found: Seq<(String, Vec<u8>)>,
    layout: Layout,
    members: Seq<(Seq<char>, serde_json::Value)>,
) -> bool {
    &&& found.len() <= members.len()
    &&& forall|k: int|
        0 <= k < found.len() ==> (#[trigger] found[k]).0@ == members[k].0 && found[k].1@
            == layout.before_member + value_bytes(members[k].1)
}

/// What follows the key at a position in the text of an object.
spec fn behind_key(
    layout: Layout,
    members: Seq<(Seq<char>, serde_json::Value)>,
    i: int,
) -> Seq<u8> {
    seq![0x3au8] + ((layout.before_member + value_bytes(members[i].1)) + behind_member(
        layout,
        members,
        i,
    ))
}

/// What follows the member at a position in the text of an object.
spec fn behind_member(
    layout: Layout,
    members: Seq<(Seq<char>, serde_json::Value)>,
    i: int,
) -> Seq<u8> {
    if i + 1 == members.len() {
        layout.at_end + seq![0x7du8]
    } else {
        seq![0x2cu8] + entries(layout, members, i + 1)
    }
}

/// What white space there is behind a member is skipped.
proof fn lemma_behind_member(
    layout: Layout,
    members: Seq<(Seq<char>, serde_json::Value)>,
    i: int,
)
    requires
        layout.wf(),
        0 <= i < members.len(),
    ensures
        ({
            let rest = behind_member(layout, members, i);
            &&& rest.len() > 0
            &&& ends_value(rest[0])
            &&& skip_space(rest) == if i + 1 == members.len() {
                seq![0x7du8]
            } else {
                rest
            }
        }),
{
    let rest = behind_member(layout, members, i);
    if i + 1 == members.len() {
        lemma_skip_space(layout.at_end, seq![0x7du8]);
        if layout.at_end.len() > 0 {
            assert(rest[0] == layout.at_end[0]);
        }
    } else {
        lemma_skip_space(Seq::empty(), rest);
        assert(Seq::<u8>::empty() + rest =~= rest);
    }
}

/// The bytes between two positions.
fn copied(bytes: &[u8], from: usize, to: usize) -> (out: Vec<u8>)
    requires
        from <= to <= bytes@.len(),
    ensures
        out@ == bytes@.subrange(from as int, to as int),
{
    let mut out: Vec<u8> = Vec::new();
    out.extend_from_slice(slice_subrange(bytes, from, to));
    assert(out@ =~= bytes@.subrange(from as int, to as int));
    out
}

/// Reads the keys and members of an object. Plain members that were written under different keys
/// are found again, in the same order.
#[verifier::rlimit(40)]
pub(crate) fn read_members(bytes: &[u8]) -> (found: Option<Vec<(String, Vec<u8>)>>)
    ensures
        match found {
            Some(f) => object_members(bytes@) == Some(raw_members(f@)),
            None => object_members(bytes@) is None,
        },
        forall|layout: Layout, members: Seq<(Seq<char>, serde_json::Value)>| #[trigger]
            is_text_of(bytes@, layout, members) ==> found is Some && found->0@.len()
                == members.len() && found_first(found->0@, layout, members),
{
    let n = bytes.len();
    let start = skip_space_at(bytes, 0);
    assert(bytes@.skip(0) =~= bytes@);
    assert forall|layout: Layout, members: Seq<(Seq<char>, serde_json::Value)>| #[trigger]
        is_text_of(bytes@, layout, members) implies start == 0 && bytes@.len() > 0 && bytes@[0]
        == 0x7b && bytes@.skip(1) == entries(layout, members, 0) by {
        assert(bytes@[0] == 0x7b);
        assert(skip_space(bytes@) == bytes@);
        assert(bytes@.skip(start as int).len() == bytes@.len());
        assert(bytes@.skip(1) =~= entries(layout, members, 0));
    }
    if start >= n {
        return None;
    }
    assert(bytes@.skip(start as int)[0] == bytes@[start as int]);
    if bytes[start] != 0x7b {
        return None;
    }
    assert(bytes@.skip(start as int).skip(1) =~= bytes@.skip(start + 1));
    let mut found: Vec<(String, Vec<u8>)> = Vec::new();
    let mut at: usize = start + 1;
    let ghost total = object_members(bytes@);
    proof {
        let more = members_after(bytes@.skip(at as int), true);
        if more is Some {
            assert(raw_members(found@) + more->0 =~= more->0);
        }
    }
    loop
        invariant
            n == bytes@.len(),
            at <= n,
            total == object_members(bytes@),
            total == joined_members(
                raw_members(found@),
                members_after(bytes@.skip(at as int), found@.len() == 0),
            ),
            forall|layout: Layout, members: Seq<(Seq<char>, serde_json::Value)>| #[trigger]
                is_text_of(bytes@, layout, members) ==> found@.len() < members.len()
                    && bytes@.skip(at as int) == entries(layout, members, found@.len() as int)
                    && found_first(found@, layout, members),
        decreases n - at,
    {
        let ghost done = found@;
        let ghost i = found@.len() as int;
        let ghost b = bytes@.skip(at as int);
        let text = slice_subrange(bytes, at, n);
        assert(text@ =~= b);
        let next = next_text(text);
        assert forall|layout: Layout, members: Seq<(Seq<char>, serde_json::Value)>| #[trigger]
            is_text_of(bytes@, layout, members) implies next is Some && (next->Some_0).0@
            == members[i].0 && b.skip((next->Some_0).1 as int) == behind_key(layout, members, i) by {
            assert(b == (layout.before_key + text_bytes(members[i].0)) + behind_key(
                layout,
                members,
                i,
            ));
            assert(b.skip((next->Some_0).1 as int) =~= behind_key(layout, members, i));
        }
        let (key, key_len) = match next {
            Some(k) => k,
            None => {
                let end = skip_space_at(bytes, at);
                if found.len() == 0 && end < n && bytes[end] == 0x7d {
                    assert(bytes@.skip(end as int)[0] == bytes@[end as int]);
                    assert(bytes@.skip(end as int).skip(1) =~= bytes@.skip(end + 1));
                    let last = skip_space_at(bytes, end + 1);
                    if last == n {
                        assert(raw_members(found@) + Seq::empty() =~= raw_members(found@));
                        return Some(found);
                    }
                } else if end < n {
                    assert(bytes@.skip(end as int)[0] == bytes@[end as int]);
                }
                return None;
            },
        };
        assert(b.skip(key_len as int) =~= bytes@.skip(at + key_len));
        let colon = skip_space_at(bytes, at + key_len);
        let ghost c = bytes@.skip(colon as int);
        assert forall|layout: Layout, members: Seq<(Seq<char>, serde_json::Value)>| #[trigger]
            is_text_of(bytes@, layout, members) implies c == behind_key(layout, members, i) by {
            let rest = behind_key(layout, members, i);
            lemma_skip_space(Seq::empty(), rest);
            assert(Seq::<u8>::empty() + rest =~= rest);
        }
        if colon >= n {
            return None;
        }
        assert(c[0] == bytes@[colon as int]);
        if bytes[colon] != 0x3a {
            return None;
        }
        let from = colon + 1;
        let ghost v = bytes@.skip(from as int);
        assert(c.skip(1) =~= v);
        let value_text = slice_subrange(bytes, from, n);
        assert(value_text@ =~= v);
        let ended = value_end(value_text);
        assert forall|layout: Layout, members: Seq<(Seq<char>, serde_json::Value)>| #[trigger]
            is_text_of(bytes@, layout, members) implies ended is Some && v.take(ended->0 as int)
            == layout.before_member + value_bytes(members[i].1) && v.skip(ended->0 as int)
            == behind_member(layout, members, i) by {
            lemma_behind_member(layout, members, i);
            assert(is_plain(members[i].1));
            assert(v =~= (layout.before_member + value_bytes(members[i].1)) + behind_member(
                layout,
                members,
                i,
            ));
            assert(v.take(ended->0 as int) =~= layout.before_member + value_bytes(members[i].1));
            assert(v.skip(ended->0 as int) =~= behind_member(layout, members, i));
        }
        let value_len = match ended {
            Some(m) => m,
            None => {
                return None;
            },
        };
        let to = from + value_len;
        let raw = copied(bytes, from, to);
        assert(raw@ =~= v.take(value_len as int));
        assert(v.skip(value_len as int) =~= bytes@.skip(to as int));
        let after = skip_space_at(bytes, to);
        let ghost d = bytes@.skip(after as int);
        assert forall|layout: Layout, members: Seq<(Seq<char>, serde_json::Value)>| #[trigger]
            is_text_of(bytes@, layout, members) implies d == (if i + 1 == members.len() {
            seq![0x7du8]
        } else {
            seq![0x2cu8] + entries(layout, members, i + 1)
        }) by {
            lemma_behind_member(layout, members, i);
        }
        let ghost entry = (key@, raw@);
        found.push((key, raw));
        assert(raw_members(found@) =~= raw_members(done).push(entry));
        assert forall|layout: Layout, members: Seq<(Seq<char>, serde_json::Value)>| #[trigger]
            is_text_of(bytes@, layout, members) implies found_first(found@, layout, members) by {
            assert forall|k: int| 0 <= k < found@.len() implies (#[trigger] found@[k]).0@
                == members[k].0 && found@[k].1@ == layout.before_member + value_bytes(
                members[k].1,
            ) by {
                if k < i {
                    assert(found@[k] == done[k]);
                }
            }
        }
        if after >= n {
            return None;
        }
        assert(d[0] == bytes@[after as int]);
        assert(d.skip(1) =~= bytes@.skip(after + 1));
        if bytes[after] == 0x2c {
            at = after + 1;
            proof {
                let more = members_after(bytes@.skip(at as int), false);
                if more is Some {
                    assert(raw_members(done) + (seq![entry] + more->0) =~= raw_members(found@)
                        + more->0);
                }
                assert forall|layout: Layout, members: Seq<(Seq<char>, serde_json::Value)>|
                    #[trigger] is_text_of(bytes@, layout, members) implies found@.len()
                    < members.len() && bytes@.skip(at as int) == entries(
                    layout,
                    members,
                    found@.len() as int,
                ) by {
                    if i + 1 == members.len() {
                        assert(d[0] == 0x7d);
                    } else {
                        assert(d.skip(1) =~= entries(layout, members, i + 1));
                    }
                }
            }
        } else if bytes[after] == 0x7d {
            let last = skip_space_at(bytes, after + 1);
            assert forall|layout: Layout, members: Seq<(Seq<char>, serde_json::Value)>| #[trigger]
                is_text_of(bytes@, layout, members) implies found@.len() == members.len() && last
                == n by {
                if i + 1 != members.len() {
                    assert(d[0] == 0x2c);
                } else {
                    assert(d.len() == 1);
                }
            }
            if last == n {
                assert(raw_members(done) + seq![entry] =~= raw_members(found@));
                return Some(found);
            }
            return None;
        } else {
            assert forall|layout: Layout, members: Seq<(Seq<char>, serde_json::Value)>| #[trigger]
                is_text_of(bytes@, layout, members) implies false by {
                if i + 1 == members.len() {
                    assert(d[0] == 0x7d);
                } else {
                    assert(d[0] == 0x2c);
                }
            }
            return None;
        }
    }
}

/// The items of an array whose text goes on with these bytes, if it is one. No comma stands before
/// the first item or behind the last one.
pub open spec fn items_after(bytes: Seq<u8>, first: bool) -> Option<Seq<Seq<u8>>>
    decreases bytes.len(),
{
    match json_value_end(bytes) {
        None => {
            let end = skip_space(bytes);
            if first && end.len() > 0 && end[0] == 0x5d && skip_space(end.skip(1)).len() == 0 {
                Some(Seq::empty())
            } else {
                None
            }
        },
        Some(end) => {
            let item = bytes.take(end as int);
            let next = skip_space(bytes.skip(end as int));
            proof {
                lemma_skip_space_len(bytes.skip(end as int));
            }
            if end > bytes.len() || next.len() == 0 {
                None
            } else if next[0] == 0x2c {
                match items_after(next.skip(1), false) {
                    Some(items) => Some(seq![item] + items),
                    None => None,
                }
            } else if next[0] == 0x5d && skip_space(next.skip(1)).len() == 0 {
                Some(seq![item])
            } else {
                None
            }
        },
    }
}

/// The items of an array, if bytes are one.
pub open spec fn array_items(bytes: Seq<u8>) -> Option<Seq<Seq<u8>>> {
    let start = skip_space(bytes);
    if start.len() > 0 && start[0] == 0x5b {
        items_after(start.skip(1), true)
    } else {
        None
    }
}

/// Items as they were read.
pub open spec fn raw_items(found: Seq<Vec<u8>>) -> Seq<Seq<u8>> {
    found.map_values(|item: Vec<u8>| item@)
}

/// Items before others, if there are others.
pub open spec fn joined_items(done: Seq<Seq<u8>>, more: Option<Seq<Seq<u8>>>) -> Option<
    Seq<Seq<u8>>,
> {
    match more {
        Some(items) => Some(done + items),
        None => None,
    }
}

/// Reads the items of an array.
fn read_items(bytes: &[u8]) -> (found: Option<Vec<Vec<u8>>>)
    ensures
        match found {
            Some(f) => array_items(bytes@) == Some(raw_items(f@)),
            None => array_items(bytes@) is None,
        },
{
    let n = bytes.len();
    let start = skip_space_at(bytes, 0);
    assert(bytes@.skip(0) =~= bytes@);
    if start >= n {
        return None;
    }
    assert(bytes@.skip(start as int)[0] == bytes@[start as int]);
    if bytes[start] != 0x5b {
        return None;
    }
    assert(bytes@.skip(start as int).skip(1) =~= bytes@.skip(start + 1));
    let mut found: Vec<Vec<u8>> = Vec::new();
    let mut at: usize = start + 1;
    let ghost total = array_items(bytes@);
    proof {
        let more = items_after(bytes@.skip(at as int), true);
        if more is Some {
            assert(raw_items(found@) + more->0 =~= more->0);
        }
    }
    loop
        invariant
            n == bytes@.len(),
            at <= n,
            total == array_items(bytes@),
            total == joined_items(
                raw_items(found@),
                items_after(bytes@.skip(at as int), found@.len() == 0),
            ),
        decreases n - at,
    {
        let ghost done = found@;
        let ghost b = bytes@.skip(at as int);
        let text = slice_subrange(bytes, at, n);
        assert(text@ =~= b);
        let item_len = match value_end(text) {
            Some(m) => m,
            None => {
                let end = skip_space_at(bytes, at);
                if found.len() == 0 && end < n && bytes[end] == 0x5d {
                    assert(bytes@.skip(end as int)[0] == bytes@[end as int]);
                    assert(bytes@.skip(end as int).skip(1) =~= bytes@.skip(end + 1));
                    let last = skip_space_at(bytes, end + 1);
                    if last == n {
                        assert(raw_items(found@) + Seq::empty() =~= raw_items(found@));
                        return Some(found);
                    }
                } else if end < n {
                    assert(bytes@.skip(end as int)[0] == bytes@[end as int]);
                }
                return None;
            },
        };
        let to = at + item_len;
        let raw = copied(bytes, at, to);
        assert(raw@ =~= b.take(item_len as int));
        assert(b.skip(item_len as int) =~= bytes@.skip(to as int));
        let after = skip_space_at(bytes, to);
        let ghost d = bytes@.skip(after as int);
        let ghost item = raw@;
        found.push(raw);
        assert(raw_items(found@) =~= raw_items(done).push(item));
        if after >= n {
            return None;
        }
        assert(d[0] == bytes@[after as int]);
        assert(d.skip(1) =~= bytes@.skip(after + 1));
        if bytes[after] == 0x2c {
            at = after + 1;
            proof {
                let more = items_after(bytes@.skip(at as int), false);
                if more is Some {
                    assert(raw_items(done) + (seq![item] + more->0) =~= raw_items(found@)
                        + more->0);
                }
            }
        } else if bytes[after] == 0x5d {
            let last = skip_space_at(bytes, after + 1);
            if last == n {
                assert(raw_items(done) + seq![item] =~= raw_items(found@));
                return Some(found);
            }
            return None;
        } else {
            return None;
        }
    }
}

/// How often a key is given.
pub open spec fn times_given(members: Seq<(Seq<char>, Seq<u8>)>, key: Seq<char>) -> nat
    decreases members.len(),
{
    if members.len() == 0 {
        0
    } else {
        times_given(members.drop_last(), key) + if members.last().0 == key {
            1nat
        } else {
            0nat
        }
    }
}

/// The member that is given under a key, the last one if there are more.
pub open spec fn member_named(members: Seq<(Seq<char>, Seq<u8>)>, key: Seq<char>) -> Option<Seq<u8>>
    decreases members.len(),
{
    if members.len() == 0 {
        None
    } else if members.last().0 == key {
        Some(members.last().1)
    } else {
        member_named(members.drop_last(), key)
    }
}

/// The first of these keys that is given more than once.
pub open spec fn first_repeated(
    members: Seq<(Seq<char>, Seq<u8>)>,
    keys: Seq<Seq<char>>,
    from: int,
) -> Option<Seq<char>>
    decreases keys.len() - from,
{
    if from < 0 || from >= keys.len() {
        None
    } else if times_given(members, keys[from]) > 1 {
        Some(keys[from])
    } else {
        first_repeated(members, keys, from + 1)
    }
}

/// What a record with these fields is read from: an object with a member for each field that is
/// given, and any others, or an array with an item for each field. Or what is wrong with it.
pub open spec fn record_of(bytes: Seq<u8>, keys: Seq<Seq<char>>) -> Result<
    Seq<Option<Seq<u8>>>,
    Seq<char>,
> {
    match object_members(bytes) {
        Some(members) => match first_repeated(members, keys, 0) {
            Some(key) => Err("duplicate field `"@ + key + "`"@),
            None => Ok(keys.map_values(|key: Seq<char>| member_named(members, key))),
        },
        None => match array_items(bytes) {
            Some(items) => if items.len() == keys.len() {
                Ok(items.map_values(|item: Seq<u8>| Some(item)))
            } else {
                Err("invalid length of an array"@)
            },
            None => match json_fault(bytes) {
                Some(why) => Err(why),
                None => Err("neither an object nor an array"@),
            },
        },
    }
}

/// What was found of a field.
pub open spec fn raw_field(raw: Option<Vec<u8>>) -> Option<Seq<u8>> {
    match raw {
        Some(bytes) => Some(bytes@),
        None => None,
    }
}

/// What was found of fields.
pub open spec fn raw_fields(raws: Seq<Option<Vec<u8>>>) -> Seq<Option<Seq<u8>>> {
    raws.map_values(|raw: Option<Vec<u8>>| raw_field(raw))
}

/// The member under a key, if there is one.
pub open spec fn find_member(
    members: Seq<(Seq<char>, serde_json::Value)>,
    key: Seq<char>,
) -> Option<serde_json::Value>
    decreases members.len(),
{
    if members.len() == 0 {
        None
    } else if members.last().0 == key {
        Some(members.last().1)
    } else {
        find_member(members.drop_last(), key)
    }
}

/// The text of the member under a key, if it is one.
pub open spec fn member_text(
    members: Seq<(Seq<char>, serde_json::Value)>,
    key: Seq<char>,
) -> Option<Seq<char>> {
    match find_member(members, key) {
        Some(value) => json_as_str(value),
        None => None,
    }
}

/// The number of the member under a key, if it is one.
pub open spec fn member_number(
    members: Seq<(Seq<char>, serde_json::Value)>,
    key: Seq<char>,
) -> Option<u64> {
    match find_member(members, key) {
        Some(value) => json_as_u64(value),
        None => None,
    }
}

/// What is found of a field that was written.
pub open spec fn written_field(layout: Layout, member: Option<serde_json::Value>) -> Option<
    Seq<u8>,
> {
    match member {
        Some(value) => Some(layout.before_member + value_bytes(value)),
        None => None,
    }
}

/// Members that were found are found by the keys of those that were written.
proof fn lemma_same_members(
    raw: Seq<(Seq<char>, Seq<u8>)>,
    layout: Layout,
    members: Seq<(Seq<char>, serde_json::Value)>,
    key: Seq<char>,
)
    requires
        raw.len() == members.len(),
        forall|k: int|
            0 <= k < raw.len() ==> (#[trigger] raw[k]).0 == members[k].0 && raw[k].1
                == layout.before_member + value_bytes(members[k].1),
        forall|i: int, j: int|
            0 <= i < j < members.len() ==> (#[trigger] members[i]).0 != (#[trigger] members[j]).0,
    ensures
        member_named(raw, key) == written_field(layout, find_member(members, key)),
        times_given(raw, key) == if find_member(members, key) is Some {
            1nat
        } else {
            0nat
        },
    decreases raw.len(),
{
    if raw.len() > 0 {
        let last = raw.len() - 1;
        assert(raw[last].0 == members[last].0);
        let most = members.drop_last();
        assert forall|k: int| 0 <= k < raw.drop_last().len() implies (#[trigger] raw.drop_last()[k]).0
            == most[k].0 && raw.drop_last()[k].1 == layout.before_member + value_bytes(
            most[k].1,
        ) by {
            assert(raw.drop_last()[k] == raw[k]);
        }
        assert forall|i: int, j: int| 0 <= i < j < most.len() implies (#[trigger] most[i]).0 != (
        #[trigger] most[j]).0 by {
            assert(members[i].0 != members[j].0);
        }
        lemma_same_members(raw.drop_last(), layout, most, key);
        if members.last().0 == key && find_member(most, key) is Some {
            let j = lemma_found_somewhere(most, key);
            assert(members[j].0 != members[last].0);
        }
    }
}

/// A member that is found stands somewhere.
proof fn lemma_found_somewhere(
    members: Seq<(Seq<char>, serde_json::Value)>,
    key: Seq<char>,
) -> (j: int)
    requires
        find_member(members, key) is Some,
    ensures
        0 <= j < members.len(),
        members[j].0 == key,
        find_member(members, key) == Some(members[j].1),
    decreases members.len(),
{
    if members.last().0 == key {
        members.len() - 1
    } else {
        lemma_found_somewhere(members.drop_last(), key)
    }
}

/// A member whose key no other one has is found.
pub proof fn lemma_find_member(members: Seq<(Seq<char>, serde_json::Value)>, i: int)
    requires
        are_plain_members(members),
        0 <= i < members.len(),
    ensures
        find_member(members, members[i].0) == Some(members[i].1),
{
    lemma_found_where(members, i);
    let j = lemma_found_somewhere(members, members[i].0);
    if j < i {
        assert(members[j].0 != members[i].0);
    } else if i < j {
        assert(members[i].0 != members[j].0);
    }
}

/// A key that stands somewhere is found.
proof fn lemma_found_where(members: Seq<(Seq<char>, serde_json::Value)>, i: int)
    requires
        0 <= i < members.len(),
    ensures
        find_member(members, members[i].0) is Some,
    decreases members.len(),
{
    if members.last().0 != members[i].0 {
        assert(members.drop_last()[i] == members[i]);
        lemma_found_where(members.drop_last(), i);
    }
}

/// The members of a document are found by their keys.
pub proof fn lemma_find_listed(
    value: serde_json::Value,
    members: Seq<(Seq<char>, serde_json::Value)>,
    key: Seq<char>,
)
    requires
        lists_members(value, members),
    ensures
        find_member(members, key) == json_member(value, key),
{
    if json_member(value, key) is Some {
        let i = choose|i: int| 0 <= i < members.len() && (#[trigger] members[i]).0 == key;
        lemma_find_member(members, i);
    } else if find_member(members, key) is Some {
        let j = lemma_found_somewhere(members, key);
        assert(json_member(value, members[j].0) == Some(members[j].1));
    }
}

/// How often a key is given, and the member under it.
fn look_up(found: &Vec<(String, Vec<u8>)>, key: &str) -> (looked: (usize, Option<Vec<u8>>))
    ensures
        looked.0 == times_given(raw_members(found@), key@),
        raw_field(looked.1) == member_named(raw_members(found@), key@),
{
    let mut times: usize = 0;
    let mut member: Option<Vec<u8>> = None;
    let mut i: usize = 0;
    let ghost all = raw_members(found@);
    assert(all.take(0) =~= Seq::empty());
    while i < found.len()
        invariant
            all == raw_members(found@),
            i <= found@.len(),
            times <= i,
            times == times_given(all.take(i as int), key@),
            raw_field(member) == member_named(all.take(i as int), key@),
        decreases found@.len() - i,
    {
        assert(all.take(i + 1).drop_last() =~= all.take(i as int));
        assert(all.take(i + 1).last() == all[i as int]);
        if str_eq(found[i].0.as_str(), key) {
            times += 1;
            let raw = &found[i].1;
            member = Some(copied(raw.as_slice(), 0, raw.len()));
            assert(raw_field(member)->0 =~= all[i as int].1);
        }
        i += 1;
    }
    assert(all.take(all.len() as int) =~= all);
    (times, member)
}

/// The keys of fields.
pub open spec fn keys_of(keys: Seq<&'static str>) -> Seq<Seq<char>> {
    keys.map_values(|key: &'static str| key@)
}

/// Reads a record. One that was written as an object with plain members under different keys is
/// always read, with what was written of each field.
pub(crate) fn read_record(bytes: &[u8], keys: &Vec<&'static str>) -> (read: Result<
    Vec<Option<Vec<u8>>>,
    String,
>)
    ensures
        match read {
            Ok(raws) => record_of(bytes@, keys_of(keys@)) == Ok::<Seq<Option<Seq<u8>>>, Seq<char>>(
                raw_fields(raws@),
            ) && raws@.len() == keys@.len(),
            Err(why) => record_of(bytes@, keys_of(keys@)) == Err::<
                Seq<Option<Seq<u8>>>,
                Seq<char>,
            >(why@),
        },
        forall|layout: Layout, members: Seq<(Seq<char>, serde_json::Value)>| #[trigger]
            is_text_of(bytes@, layout, members) ==> read is Ok && (forall|i: int|
                0 <= i < keys@.len() ==> raw_field(#[trigger] read->Ok_0@[i]) == written_field(
                    layout,
                    find_member(members, keys@[i]@),
                )),
{
    match read_members(bytes) {
        Some(found) => {
            let ghost all = raw_members(found@);
            assert forall|layout: Layout, members: Seq<(Seq<char>, serde_json::Value)>,
                key: Seq<char>|
                #![trigger is_text_of(bytes@, layout, members), member_named(all, key)]
                is_text_of(bytes@, layout, members) implies member_named(all, key)
                == written_field(layout, find_member(members, key)) && times_given(all, key)
                <= 1 by {
                assert forall|k: int| 0 <= k < all.len() implies (#[trigger] all[k]).0
                    == members[k].0 && all[k].1 == layout.before_member + value_bytes(
                    members[k].1,
                ) by {
                    assert(found@[k].0@ == members[k].0);
                }
                lemma_same_members(all, layout, members, key);
            }
            let mut raws: Vec<Option<Vec<u8>>> = Vec::new();
            let mut i: usize = 0;
            let ghost names = keys_of(keys@);
            while i < keys.len()
                invariant
                    i <= keys@.len(),
                    names == keys_of(keys@),
                    all == raw_members(found@),
                    object_members(bytes@) == Some(all),
                    raws@.len() == i,
                    first_repeated(all, names, 0) == first_repeated(all, names, i as int),
                    forall|k: int|
                        0 <= k < i ==> raw_field(#[trigger] raws@[k]) == member_named(
                            all,
                            keys@[k]@,
                        ),
                    forall|layout: Layout, members: Seq<(Seq<char>, serde_json::Value)>,
                        key: Seq<char>|
                        #![trigger is_text_of(bytes@, layout, members), member_named(all, key)]
                        is_text_of(bytes@, layout, members) ==> member_named(all, key)
                            == written_field(layout, find_member(members, key)) && times_given(
                            all,
                            key,
                        ) <= 1,
                decreases keys@.len() - i,
            {
                let key = keys[i];
                assert(names[i as int] == key@);
                let (times, member) = look_up(&found, key);
                if times > 1 {
                    let why = concat(concat("duplicate field `", key).as_str(), "`");
                    assert forall|layout: Layout,
                        members: Seq<(Seq<char>, serde_json::Value)>| #[trigger]
                        is_text_of(bytes@, layout, members) implies false by {
                        assert(member_named(all, key@) == member_named(all, key@));
                    }
                    return Err(why);
                }
                raws.push(member);
                i += 1;
            }
            assert(raw_fields(raws@) =~= names.map_values(
                |key: Seq<char>| member_named(all, key),
            ));
            assert forall|layout: Layout, members: Seq<(Seq<char>, serde_json::Value)>| #[trigger]
                is_text_of(bytes@, layout, members) implies (forall|k: int|
                0 <= k < keys@.len() ==> raw_field(#[trigger] raws@[k]) == written_field(
                    layout,
                    find_member(members, keys@[k]@),
                )) by {
                assert forall|k: int| 0 <= k < keys@.len() implies raw_field(#[trigger] raws@[k])
                    == written_field(layout, find_member(members, keys@[k]@)) by {
                    assert(raw_field(raws@[k]) == member_named(all, keys@[k]@));
                }
            }
            Ok(raws)
        },
        None => match read_items(bytes) {
            Some(items) => if items.len() == keys.len() {
                let ghost all = raw_items(items@);
                let mut raws: Vec<Option<Vec<u8>>> = Vec::new();
                let ghost source = items@;
                for item in it: items
                    invariant
                        it.seq() == source,
                        raws@.len() == it.index(),
                        forall|k: int|
                            0 <= k < raws@.len() ==> raw_field(#[trigger] raws@[k]) == Some(
                                source[k]@,
                            ),
                {
                    raws.push(Some(item));
                }
                assert(raw_fields(raws@) =~= all.map_values(|item: Seq<u8>| Some(item)));
                Ok(raws)
            } else {
                Err("invalid length of an array".to_owned())
            },
            None => match fault_of(bytes) {
                Some(why) => Err(why),
                None => Err("neither an object nor an array".to_owned()),
            },
        },
    }
}

/// The text that a field holds, or what is wrong with it.
pub open spec fn text_field_of(raw: Option<Seq<u8>>, key: Seq<char>) -> Result<
    Seq<char>,
    Seq<char>,
> {
    match raw {
        None => Err("missing field `"@ + key + "`"@),
        Some(bytes) => json_read_text(bytes),
    }
}

/// The number that a field holds, or what is wrong with it.
pub open spec fn number_field_of(raw: Option<Seq<u8>>, key: Seq<char>) -> Result<u64, Seq<char>> {
    match raw {
        None => Err("missing field `"@ + key + "`"@),
        Some(bytes) => json_read_number(bytes),
    }
}

/// The identifier that a field holds, or what is wrong with it.
pub open spec fn id_field_of(raw: Option<Seq<u8>>, key: Seq<char>) -> Result<Uuid, Seq<char>> {
    match text_field_of(raw, key) {
        Err(why) => Err(why),
        Ok(text) => match uuid_parse(text) {
            Ok(value) => Ok(Uuid { value }),
            Err(why) => Err("UUID parsing failed: "@ + why),
        },
    }
}

/// The complaint about a field that is missing.
fn missing(key: &str) -> (why: String)
    ensures
        why@ == "missing field `"@ + key@ + "`"@,
{
    concat(concat("missing field `", key).as_str(), "`")
}

/// Reads a text field. A text that was written is read back, and nothing else is.
pub(crate) fn text_field(raw: &Option<Vec<u8>>, key: &str) -> (read: Result<String, String>)
    ensures
        match read {
            Ok(text) => text_field_of(raw_field(*raw), key@) == Ok::<Seq<char>, Seq<char>>(text@),
            Err(why) => text_field_of(raw_field(*raw), key@) == Err::<Seq<char>, Seq<char>>(why@),
        },
        forall|layout: Layout, members: Seq<(Seq<char>, serde_json::Value)>|
            #![trigger written_field(layout, find_member(members, key@))]
            layout.wf() && are_plain_members(members) && raw_field(*raw) == written_field(
                layout,
                find_member(members, key@),
            ) ==> match member_text(members, key@) {
                Some(text) => read is Ok && read->Ok_0@ == text,
                None => read is Err,
            },
{
    assert forall|layout: Layout, members: Seq<(Seq<char>, serde_json::Value)>|
        #![trigger written_field(layout, find_member(members, key@))]
        layout.wf() && are_plain_members(members) && raw_field(*raw) == written_field(
            layout,
            find_member(members, key@),
        ) && find_member(members, key@) is Some implies *raw is Some && (*raw)->0@
        == layout.before_member + value_bytes(find_member(members, key@)->0) && is_plain(
        find_member(members, key@)->0,
    ) by {
        let j = lemma_found_somewhere(members, key@);
        assert(is_plain(members[j].1));
    }
    match raw {
        None => Err(missing(key)),
        Some(bytes) => text_of(bytes.as_slice()),
    }
}

/// Reads a number field. A number that was written is read back.
pub(crate) fn number_field(raw: &Option<Vec<u8>>, key: &str) -> (read: Result<u64, String>)
    ensures
        match read {
            Ok(n) => number_field_of(raw_field(*raw), key@) == Ok::<u64, Seq<char>>(n),
            Err(why) => number_field_of(raw_field(*raw), key@) == Err::<u64, Seq<char>>(why@),
        },
        forall|layout: Layout, members: Seq<(Seq<char>, serde_json::Value)>|
            #![trigger written_field(layout, find_member(members, key@))]
            layout.wf() && member_number(members, key@) is Some && raw_field(*raw)
                == written_field(layout, find_member(members, key@)) ==> read is Ok && read->Ok_0
                == member_number(members, key@)->0,
{
    assert forall|layout: Layout, members: Seq<(Seq<char>, serde_json::Value)>|
        #![trigger written_field(layout, find_member(members, key@))]
        layout.wf() && member_number(members, key@) is Some && raw_field(*raw) == written_field(
            layout,
            find_member(members, key@),
        ) implies *raw is Some && (*raw)->0@ == layout.before_member + value_bytes(
        find_member(members, key@)->0,
    ) by {}
    match raw {
        None => Err(missing(key)),
        Some(bytes) => number_of(bytes.as_slice()),
    }
}

/// Reads an identifier field. An identifier that was written in its canonical form is read back.
pub(crate) fn id_field(raw: &Option<Vec<u8>>, key: &str) -> (read: Result<Uuid, String>)
    ensures
        match read {
            Ok(id) => id_field_of(raw_field(*raw), key@) == Ok::<Uuid, Seq<char>>(id),
            Err(why) => id_field_of(raw_field(*raw), key@) == Err::<Uuid, Seq<char>>(why@),
        },
        forall|layout: Layout, members: Seq<(Seq<char>, serde_json::Value)>, id: Uuid|
            #![trigger written_field(layout, find_member(members, key@)), uuid_text(id.value)]
            layout.wf() && are_plain_members(members) && member_text(members, key@) == Some(
                uuid_text(id.value),
            ) && raw_field(*raw) == written_field(layout, find_member(members, key@)) ==> read is Ok
                && read->Ok_0 == id,
{
    match text_field(raw, key) {
        Err(why) => Err(why),
        Ok(text) => match Uuid::parse_str(text.as_str()) {
            Ok(id) => Ok(id),
            Err(why) => Err(concat("UUID parsing failed: ", why.as_str())),
        },
    }
}

/// What is given under a key is what is given there last, and nothing is only where the key is never
/// given.
pub proof fn law_last_member_counts(members: Seq<(Seq<char>, Seq<u8>)>, key: Seq<char>)
    ensures
        match member_named(members, key) {
            Some(member) => exists|i: int| #[trigger]
                is_last_given(members, key, i) && members[i].1 == member,
            None => forall|i: int| 0 <= i < members.len() ==> (#[trigger] members[i]).0 != key,
        },
    decreases members.len(),
{
    if members.len() > 0 {
        let shorter = members.drop_last();
        if members.last().0 == key {
            assert(is_last_given(members, key, members.len() - 1));
        } else {
            law_last_member_counts(shorter, key);
            if member_named(shorter, key) is Some {
                let i = choose|i: int| #[trigger]
                    is_last_given(shorter, key, i) && shorter[i].1 == member_named(
                        shorter,
                        key,
                    )->0;
                assert forall|j: int| i < j < members.len() implies (#[trigger] members[j]).0
                    != key by {
                    if j < shorter.len() {
                        assert(shorter[j] == members[j]);
                    }
                }
                assert(is_last_given(members, key, i));
            } else {
                assert forall|i: int| 0 <= i < members.len() implies (#[trigger] members[i]).0
                    != key by {
                    if i < shorter.len() {
                        assert(shorter[i] == members[i]);
                    }
                }
            }
        }
    }
}

/// Whether a key is given at a position and not behind it.
pub open spec fn is_last_given(members: Seq<(Seq<char>, Seq<u8>)>, key: Seq<char>, i: int) -> bool {
    &&& 0 <= i < members.len()
    &&& members[i].0 == key
    &&& forall|j: int| i < j < members.len() ==> (#[trigger] members[j]).0 != key
}

/// A key is counted once for every position at which it is given.
proof fn lemma_times_given(members: Seq<(Seq<char>, Seq<u8>)>, key: Seq<char>)
    ensures
        times_given(members, key) == 0 <==> forall|i: int|
            0 <= i < members.len() ==> (#[trigger] members[i]).0 != key,
        times_given(members, key) > 1 <==> exists|i: int, j: int|
            0 <= i < j < members.len() && (#[trigger] members[i]).0 == key && (
            #[trigger] members[j]).0 == key,
    decreases members.len(),
{
    if members.len() > 0 {
        let shorter = members.drop_last();
        let last = members.len() - 1;
        lemma_times_given(shorter, key);
        assert forall|i: int| 0 <= i < shorter.len() implies #[trigger] shorter[i]
            == members[i] by {}
        if members[last].0 == key {
            assert(times_given(members, key) > 0);
            if times_given(shorter, key) > 0 {
                let i = choose|i: int|
                    0 <= i < shorter.len() && (#[trigger] shorter[i]).0 == key;
                assert(members[i].0 == key && members[last].0 == key);
            } else {
                assert forall|i: int, j: int|
                    0 <= i < j < members.len() && (#[trigger] members[i]).0 == key && (
                    #[trigger] members[j]).0 == key implies false by {
                    assert(shorter[i].0 != key);
                }
            }
        } else {
            if times_given(shorter, key) == 0 {
                assert forall|i: int| 0 <= i < members.len() implies (#[trigger] members[i]).0
                    != key by {
                    if i < last {
                        assert(shorter[i].0 != key);
                    }
                }
            } else {
                let i = choose|i: int|
                    0 <= i < shorter.len() && (#[trigger] shorter[i]).0 == key;
                assert(members[i].0 == key);
            }
            if times_given(shorter, key) > 1 {
                let (i, j) = choose|i: int, j: int|
                    0 <= i < j < shorter.len() && (#[trigger] shorter[i]).0 == key && (
                    #[trigger] shorter[j]).0 == key;
                assert(members[i].0 == key && members[j].0 == key);
            } else {
                assert forall|i: int, j: int|
                    0 <= i < j < members.len() && (#[trigger] members[i]).0 == key && (
                    #[trigger] members[j]).0 == key implies false by {
                    assert(j != last);
                    assert(shorter[i].0 == key && shorter[j].0 == key);
                }
            }
        }
    }
}

/// The first of the keys that is given more than once.
proof fn lemma_first_repeated(
    members: Seq<(Seq<char>, Seq<u8>)>,
    keys: Seq<Seq<char>>,
    from: int,
)
    requires
        0 <= from,
    ensures
        match first_repeated(members, keys, from) {
            Some(key) => exists|k: int|
                from <= k < keys.len() && #[trigger] keys[k] == key && times_given(members, key)
                    > 1,
            None => forall|k: int|
                from <= k < keys.len() ==> times_given(members, #[trigger] keys[k]) <= 1,
        },
    decreases keys.len() - from,
{
    if from < keys.len() && times_given(members, keys[from]) <= 1 {
        lemma_first_repeated(members, keys, from + 1);
    }
}

/// A record is read from an object exactly if none of its fields is given twice; each field is then
/// what is given last under its key, and what is given under other keys does not matter.
pub proof fn law_records_are_read_from_objects(
    bytes: Seq<u8>,
    keys: Seq<Seq<char>>,
    members: Seq<(Seq<char>, Seq<u8>)>,
    k: int,
)
    requires
        object_members(bytes) == Some(members),
        0 <= k < keys.len(),
    ensures
        record_of(bytes, keys) matches Ok(fields) ==> {
            &&& fields.len() == keys.len()
            &&& fields[k] is Some <==> exists|i: int|
                0 <= i < members.len() && (#[trigger] members[i]).0 == keys[k]
            &&& fields[k] matches Some(field) ==> exists|i: int| #[trigger]
                is_last_given(members, keys[k], i) && members[i].1 == field
        },
        (exists|i: int, j: int|
            0 <= i < j < members.len() && (#[trigger] members[i]).0 == keys[k] && (
            #[trigger] members[j]).0 == keys[k]) ==> record_of(bytes, keys) is Err,
        (forall|n: int, i: int, j: int|
            #![trigger keys[n], members[i], members[j]]
            0 <= n < keys.len() && 0 <= i < j < members.len() ==> members[i].0 != keys[n]
                || members[j].0 != keys[n]) ==> record_of(bytes, keys) is Ok,
{
    lemma_first_repeated(members, keys, 0);
    lemma_times_given(members, keys[k]);
    law_last_member_counts(members, keys[k]);
    if member_named(members, keys[k]) is Some {
        let i = choose|i: int| #[trigger]
            is_last_given(members, keys[k], i) && members[i].1 == member_named(
                members,
                keys[k],
            )->0;
        assert(members[i].0 == keys[k]);
    }
    if first_repeated(members, keys, 0) is Some {
        let key = first_repeated(members, keys, 0)->0;
        let n = choose|n: int|
            0 <= n < keys.len() && #[trigger] keys[n] == key && times_given(members, key) > 1;
        lemma_times_given(members, key);
        let (i, j) = choose|i: int, j: int|
            0 <= i < j < members.len() && (#[trigger] members[i]).0 == key && (
            #[trigger] members[j]).0 == key;
        assert(keys[n] == key && members[i].0 == key && members[j].0 == key);
    }
}

/// A record is read from an array exactly if it has an item for every field, in their order.
pub proof fn law_records_are_read_from_arrays(
    bytes: Seq<u8>,
    keys: Seq<Seq<char>>,
    items: Seq<Seq<u8>>,
    k: int,
)
    requires
        object_members(bytes) is None,
        array_items(bytes) == Some(items),
        0 <= k < keys.len(),
    ensures
        record_of(bytes, keys) is Ok <==> items.len() == keys.len(),
        record_of(bytes, keys) matches Ok(fields) ==> fields.len() == keys.len() && fields[k]
            == Some(items[k]),
{
}

/// A field that is not given is missing, and is said to be by its name.
pub proof fn law_missing_fields_are_named(key: Seq<char>)
    ensures
        text_field_of(None, key) == Err::<Seq<char>, Seq<char>>("missing field `"@ + key + "`"@),
        number_field_of(None, key) == Err::<u64, Seq<char>>("missing field `"@ + key + "`"@),
        id_field_of(None, key) == Err::<Uuid, Seq<char>>("missing field `"@ + key + "`"@),
{
}

/// White space before a part of a document is skipped, all of it and nothing else.
pub proof fn law_leading_space_is_skipped(bytes: Seq<u8>) -> (n: int)
    ensures
        0 <= n <= bytes.len(),
        skip_space(bytes) == bytes.skip(n),
        forall|i: int|
            0 <= i < n ==> #[trigger] bytes[i] == 0x20 || bytes[i] == 0x0a || bytes[i] == 0x0d
                || bytes[i] == 0x09,
        n < bytes.len() ==> bytes[n] != 0x20 && bytes[n] != 0x0a && bytes[n] != 0x0d && bytes[n]
            != 0x09,
    decreases bytes.len(),
{
    if bytes.len() > 0 && is_space(bytes[0]) {
        let n = law_leading_space_is_skipped(bytes.skip(1));
        assert(bytes.skip(1).skip(n) =~= bytes.skip(n + 1));
        assert forall|i: int| 0 <= i < n + 1 implies #[trigger] bytes[i] == 0x20 || bytes[i]
            == 0x0a || bytes[i] == 0x0d || bytes[i] == 0x09 by {
            if i > 0 {
                assert(bytes.skip(1)[i - 1] == bytes[i]);
            }
        }
        n + 1
    } else {
        assert(bytes.skip(0) =~= bytes);
        0
    }
}

} // verus!
