//! What the client remembers of its sessions.

#[allow(unused_imports)]
use crate::client::command::optional_text;
#[allow(unused_imports)]
use crate::document::{
    distinct_keys, fields_of, hold_fields, is_sheet_of, lemma_simple_members, Field,
};
use crate::document::{sheet, Item};
use crate::fields::{id_field, number_field, read_record, text_field};
#[allow(unused_imports)]
use crate::fields::{
    id_field_of, is_text_of, keys_of, lemma_find_member, member_number, member_text,
    number_field_of, raw_field, raw_fields, record_of, text_field_of,
};
use crate::ids::Uuid;
#[allow(unused_imports)]
use crate::ids::{law_uuid_text_is_unique, uuid_text};
#[allow(unused_imports)]
use crate::json::{indented, object_bytes, Layout};
use crate::paths::join;
#[allow(unused_imports)]
use crate::paths::joined;
use crate::text::concat;
#[allow(unused_imports)]
use crate::time::{whole_seconds, ClockReading};
use vstd::prelude::*;

verus! {

/// What is remembered of a session.
#[derive(Debug, Clone, PartialEq, Eq)]
pub struct SessionCacheEntry {
    pub session_id: Uuid,
    pub ssh_target: String,
    pub resume_token: String,
    pub resume_token_expires_at: u64,
    pub quic_addr: String,
    pub cert_fingerprint: String,
    pub updated_at: u64,
}

/// What is remembered of a session, with its texts as sequences of characters.
#[verifier::ext_equal]
pub struct EntryView {
    pub session_id: Uuid,
    pub ssh_target: Seq<char>,
    pub resume_token: Seq<char>,
    pub resume_token_expires_at: u64,
    pub quic_addr: Seq<char>,
    pub cert_fingerprint: Seq<char>,
    pub updated_at: u64,
}

impl View for SessionCacheEntry {
    type V = EntryView;

    open spec fn view(&self) -> EntryView {
        EntryView {
            session_id: self.session_id,
            ssh_target: self.ssh_target@,
            resume_token: self.resume_token@,
            resume_token_expires_at: self.resume_token_expires_at,
            quic_addr: self.quic_addr@,
            cert_fingerprint: self.cert_fingerprint@,
            updated_at: self.updated_at,
        }
    }
}

/// Why a session cannot be remembered or recalled.
#[derive(Debug)]
pub enum CacheError {
    Io(String),
    Json(String),
}

impl CacheError {
    /// What the error says.
    pub open spec fn text(self) -> Seq<char> {
        match self {
            CacheError::Io(m) => "io error: "@ + m@,
            CacheError::Json(m) => "json error: "@ + m@,
        }
    }

    /// What the error says.
    pub fn message(&self) -> (m: String)
        ensures
            m@ == self.text(),
    {
        match self {
            CacheError::Io(m) => concat("io error: ", m.as_str()),
            CacheError::Json(m) => concat("json error: ", m.as_str()),
        }
    }
}

/// The directory in which sessions are remembered, one file for each.
#[derive(Debug)]
pub struct SessionCache {
    root: String,
}

impl View for SessionCache {
    type V = Seq<char>;

    closed spec fn view(&self) -> Seq<char> {
        self.root@
    }
}

/// The directory that is used by default: below the cache directory of the user.
pub open spec fn default_directory(
    xdg_cache_home: Option<Seq<char>>,
    home: Option<Seq<char>>,
) -> Seq<char> {
    let base = match xdg_cache_home {
        Some(dir) => dir,
        None => joined(
            match home {
                Some(dir) => dir,
                None => "."@,
            },
            ".cache"@,
        ),
    };
    joined(joined(base, "neosh"@), "sessions"@)
}

/// The file of a session.
pub open spec fn entry_file(root: Seq<char>, session_id: Uuid) -> Seq<char> {
    joined(root, uuid_text(session_id.value) + ".json"@)
}

impl SessionCache {
    /// Remembers sessions in this directory.
    pub fn new(root: String) -> (cache: SessionCache)
        ensures
            cache@ == root@,
    {
        SessionCache { root }
    }

    /// The directory that is used by default, from the values of `XDG_CACHE_HOME` and `HOME`.
    pub fn default_root(xdg_cache_home: Option<&str>, home: Option<&str>) -> (root: String)
        ensures
            root@ == default_directory(optional_text(xdg_cache_home), optional_text(home)),
    {
        let base = match xdg_cache_home {
            Some(dir) => dir.to_owned(),
            None => match home {
                Some(dir) => join(dir, ".cache"),
                None => join(".", ".cache"),
            },
        };
        join(join(base.as_str(), "neosh").as_str(), "sessions")
    }

    /// The directory.
    pub fn root(&self) -> (root: &str)
        ensures
            root@ == self@,
    {
        self.root.as_str()
    }

    /// The file of a session.
    pub fn entry_path(&self, session_id: Uuid) -> (path: String)
        ensures
            path@ == entry_file(self@, session_id),
    {
        join(self.root.as_str(), concat(session_id.to_text().as_str(), ".json").as_str())
    }
}

/// The fields of what is remembered of a session.
pub open spec fn entry_fields(entry: EntryView) -> Seq<(Seq<char>, Field)> {
    seq![
        ("session_id"@, Field::Text(uuid_text(entry.session_id.value))),
        ("ssh_target"@, Field::Text(entry.ssh_target)),
        ("resume_token"@, Field::Text(entry.resume_token)),
        ("resume_token_expires_at"@, Field::Number(entry.resume_token_expires_at)),
        ("quic_addr"@, Field::Text(entry.quic_addr)),
        ("cert_fingerprint"@, Field::Text(entry.cert_fingerprint)),
        ("updated_at"@, Field::Number(entry.updated_at)),
    ]
}

/// Whether a file holds what is remembered of a session: the indented text of its fields, in order.
pub open spec fn is_file_of(data: Seq<u8>, entry: EntryView) -> bool {
    is_sheet_of(data, entry_fields(entry))
}

/// Writes what is remembered of a session.
pub fn encode_entry(entry: &SessionCacheEntry) -> (data: Result<Vec<u8>, CacheError>)
    ensures
        data matches Ok(bytes) && is_file_of(bytes@, entry@),
{
    let mut items: Vec<(&'static str, Item)> = Vec::new();
    items.push(("session_id", Item::Text(entry.session_id.to_text())));
    items.push(("ssh_target", Item::Text(entry.ssh_target.clone())));
    items.push(("resume_token", Item::Text(entry.resume_token.clone())));
    items.push(("resume_token_expires_at", Item::Number(entry.resume_token_expires_at)));
    items.push(("quic_addr", Item::Text(entry.quic_addr.clone())));
    items.push(("cert_fingerprint", Item::Text(entry.cert_fingerprint.clone())));
    items.push(("updated_at", Item::Number(entry.updated_at)));
    assert(fields_of(items@) =~= entry_fields(entry@));
    match sheet(items) {
        Ok(data) => Ok(data),
        Err(why) => Err(CacheError::Json(why)),
    }
}

/// The keys of what is remembered of a session.
pub open spec fn entry_keys() -> Seq<Seq<char>> {
    seq![
        "session_id"@,
        "ssh_target"@,
        "resume_token"@,
        "resume_token_expires_at"@,
        "quic_addr"@,
        "cert_fingerprint"@,
        "updated_at"@,
    ]
}

/// The host, which may be missing.
pub open spec fn target_of(raw: Option<Seq<u8>>) -> Result<Seq<char>, Seq<char>> {
    match raw {
        Some(_) => text_field_of(raw, "ssh_target"@),
        None => Ok(Seq::empty()),
    }
}

/// What a file says of a session, or what is wrong with it.
pub open spec fn entry_of(data: Seq<u8>) -> Result<EntryView, Seq<char>> {
    match record_of(data, entry_keys()) {
        Err(why) => Err(why),
        Ok(r) => match id_field_of(r[0], "session_id"@) {
            Err(why) => Err(why),
            Ok(session_id) => match target_of(r[1]) {
                Err(why) => Err(why),
                Ok(ssh_target) => match text_field_of(r[2], "resume_token"@) {
                    Err(why) => Err(why),
                    Ok(resume_token) => match number_field_of(r[3], "resume_token_expires_at"@) {
                        Err(why) => Err(why),
                        Ok(resume_token_expires_at) => match text_field_of(r[4], "quic_addr"@) {
                            Err(why) => Err(why),
                            Ok(quic_addr) => match text_field_of(r[5], "cert_fingerprint"@) {
                                Err(why) => Err(why),
                                Ok(cert_fingerprint) => match number_field_of(
                                    r[6],
                                    "updated_at"@,
                                ) {
                                    Err(why) => Err(why),
                                    Ok(updated_at) => Ok(
                                        EntryView {
                                            session_id,
                                            ssh_target,
                                            resume_token,
                                            resume_token_expires_at,
                                            quic_addr,
                                            cert_fingerprint,
                                            updated_at,
                                        },
                                    ),
                                },
                            },
                        },
                    },
                },
            },
        },
    }
}

/// Whether members say this of a session.
pub open spec fn recorded_by(
    members: Seq<(Seq<char>, serde_json::Value)>,
    entry: EntryView,
) -> bool {
    &&& member_text(members, "session_id"@) == Some(uuid_text(entry.session_id.value))
    &&& member_text(members, "ssh_target"@) == Some(entry.ssh_target)
    &&& member_text(members, "resume_token"@) == Some(entry.resume_token)
    &&& member_number(members, "resume_token_expires_at"@) == Some(entry.resume_token_expires_at)
    &&& member_text(members, "quic_addr"@) == Some(entry.quic_addr)
    &&& member_text(members, "cert_fingerprint"@) == Some(entry.cert_fingerprint)
    &&& member_number(members, "updated_at"@) == Some(entry.updated_at)
}

/// Whether an outcome is what a document says, or what it lacks.
pub open spec fn is_entry_outcome(
    outcome: Result<SessionCacheEntry, CacheError>,
    expected: Result<EntryView, Seq<char>>,
) -> bool {
    match (outcome, expected) {
        (Ok(entry), Ok(want)) => entry@ == want,
        (Err(CacheError::Json(m)), Err(want)) => m@ == want,
        _ => false,
    }
}

/// Whether an outcome is that this is remembered.
pub open spec fn is_recalled(
    outcome: Result<SessionCacheEntry, CacheError>,
    entry: EntryView,
) -> bool {
    outcome matches Ok(recalled) && recalled@ == entry
}

/// A file that holds what is remembered is the text of members that say just that.
proof fn lemma_entry_members(data: Seq<u8>, entry: EntryView) -> (members: Seq<
    (Seq<char>, serde_json::Value),
>)
    requires
        is_file_of(data, entry),
    ensures
        is_text_of(data, indented(), members),
        recorded_by(members, entry),
{
    let fields = entry_fields(entry);
    let members = choose|members: Seq<(Seq<char>, serde_json::Value)>|
        hold_fields(members, fields) && data == #[trigger] object_bytes(indented(), members);
    reveal_strlit("session_id");
    reveal_strlit("ssh_target");
    reveal_strlit("resume_token");
    reveal_strlit("resume_token_expires_at");
    reveal_strlit("quic_addr");
    reveal_strlit("cert_fingerprint");
    reveal_strlit("updated_at");
    assert("session_id"@.len() == 10 && "ssh_target"@.len() == 10 && "updated_at"@.len() == 10);
    assert("resume_token"@.len() == 12 && "resume_token_expires_at"@.len() == 23);
    assert("quic_addr"@.len() == 9 && "cert_fingerprint"@.len() == 16);
    assert("session_id"@[1] == 'e' && "ssh_target"@[1] == 's' && "updated_at"@[1] == 'p');
    assert(distinct_keys(fields));
    lemma_simple_members(members, fields);
    assert(members[0].0 == fields[0].0);
    assert(members[1].0 == fields[1].0);
    assert(members[2].0 == fields[2].0);
    assert(members[3].0 == fields[3].0);
    assert(members[4].0 == fields[4].0);
    assert(members[5].0 == fields[5].0);
    assert(members[6].0 == fields[6].0);
    lemma_find_member(members, 0);
    lemma_find_member(members, 1);
    lemma_find_member(members, 2);
    lemma_find_member(members, 3);
    lemma_find_member(members, 4);
    lemma_find_member(members, 5);
    lemma_find_member(members, 6);
    members
}

/// Reads what a file says of a session. What was written is read back.
fn read_entry(data: &[u8]) -> (read: Result<SessionCacheEntry, String>)
    ensures
        match read {
            Ok(entry) => entry_of(data@) == Ok::<EntryView, Seq<char>>(entry@),
            Err(why) => entry_of(data@) == Err::<EntryView, Seq<char>>(why@),
        },
        forall|layout: Layout, members: Seq<(Seq<char>, serde_json::Value)>, entry: EntryView|
            #![trigger is_text_of(data@, layout, members), recorded_by(members, entry)]
            is_text_of(data@, layout, members) && recorded_by(members, entry) ==> read is Ok
                && read->Ok_0@ == entry,
{
    let mut keys: Vec<&'static str> = Vec::new();
    keys.push("session_id");
    keys.push("ssh_target");
    keys.push("resume_token");
    keys.push("resume_token_expires_at");
    keys.push("quic_addr");
    keys.push("cert_fingerprint");
    keys.push("updated_at");
    assert(keys_of(keys@) =~= entry_keys());
    let raws = match read_record(data, &keys) {
        Ok(raws) => raws,
        Err(why) => {
            return Err(why);
        },
    };
    let ghost r = raw_fields(raws@);
    assert(r[0] == raw_field(raws@[0]) && r[1] == raw_field(raws@[1]) && r[2] == raw_field(
        raws@[2],
    ) && r[3] == raw_field(raws@[3]) && r[4] == raw_field(raws@[4]) && r[5] == raw_field(raws@[5])
        && r[6] == raw_field(raws@[6]));
    let session_id = match id_field(&raws[0], "session_id") {
        Ok(id) => id,
        Err(why) => {
            return Err(why);
        },
    };
    let ssh_target = if raws[1].is_some() {
        match text_field(&raws[1], "ssh_target") {
            Ok(text) => text,
            Err(why) => {
                return Err(why);
            },
        }
    } else {
        String::new()
    };
    let resume_token = match text_field(&raws[2], "resume_token") {
        Ok(text) => text,
        Err(why) => {
            return Err(why);
        },
    };
    let resume_token_expires_at = match number_field(&raws[3], "resume_token_expires_at") {
        Ok(n) => n,
        Err(why) => {
            return Err(why);
        },
    };
    let quic_addr = match text_field(&raws[4], "quic_addr") {
        Ok(text) => text,
        Err(why) => {
            return Err(why);
        },
    };
    let cert_fingerprint = match text_field(&raws[5], "cert_fingerprint") {
        Ok(text) => text,
        Err(why) => {
            return Err(why);
        },
    };
    let updated_at = match number_field(&raws[6], "updated_at") {
        Ok(n) => n,
        Err(why) => {
            return Err(why);
        },
    };
    assert(r[1] is None ==> ssh_target@ =~= Seq::<char>::empty());
    Ok(
        SessionCacheEntry {
            session_id,
            ssh_target,
            resume_token,
            resume_token_expires_at,
            quic_addr,
            cert_fingerprint,
            updated_at,
        },
    )
}

/// Reads what is remembered of a session. Whatever was written is recalled.
pub fn decode_entry(data: &[u8]) -> (outcome: Result<SessionCacheEntry, CacheError>)
    ensures
        is_entry_outcome(outcome, entry_of(data@)),
        forall|entry: EntryView| #[trigger] is_file_of(data@, entry) ==> is_recalled(outcome, entry),
{
    let read = read_entry(data);
    assert forall|entry: EntryView| #[trigger] is_file_of(data@, entry) implies read is Ok
        && read->Ok_0@ == entry by {
        let members = lemma_entry_members(data@, entry);
        assert(is_text_of(data@, indented(), members));
    }
    match read {
        Ok(entry) => Ok(entry),
        Err(why) => Err(CacheError::Json(why)),
    }
}

/// No two sessions share a file: what is remembered of one is never taken for another.
pub proof fn law_entry_files_are_distinct(root: Seq<char>, a: Uuid, b: Uuid)
    requires
        entry_file(root, a) == entry_file(root, b),
    ensures
        a == b,
{
    let x = uuid_text(a.value) + ".json"@;
    let y = uuid_text(b.value) + ".json"@;
    let base = if root.len() == 0 || root.last() == '/' {
        root
    } else {
        root.push('/')
    };
    assert(joined(root, x).skip(base.len() as int) =~= x);
    assert(joined(root, y).skip(base.len() as int) =~= y);
    assert(x.take(36) =~= uuid_text(a.value));
    assert(y.take(36) =~= uuid_text(b.value));
    law_uuid_text_is_unique(a.value, b.value);
}

/// The current time in whole seconds since the start of 1970.
pub fn now_epoch_seconds() -> (secs: u64)
    ensures
        exists|reading: ClockReading| #[trigger]
            reading.wf() && secs == whole_seconds(reading.offset()),
{
    crate::time::now_epoch_seconds()
}

/// What is remembered of sessions stands below the cache directory of the user, which is `.cache` in
/// the home directory where none is set, and in the current directory without a home. Every session
/// has a file of its own there.
pub proof fn law_cache_place(
    cache: Seq<char>,
    home: Option<Seq<char>>,
    dir: Seq<char>,
    session_id: Uuid,
)
    ensures
        default_directory(Some(cache), home) == joined(joined(cache, "neosh"@), "sessions"@),
        default_directory(None, Some(dir)) == default_directory(Some(joined(dir, ".cache"@)), home),
        default_directory(None, None) == default_directory(None, Some("."@)),
        entry_file(dir, session_id) == joined(dir, uuid_text(session_id.value) + ".json"@),
{
}

/// Everything that is remembered of a session is written, each thing under its own name and nothing
/// else.
pub proof fn law_entries_are_written_whole(entry: EntryView)
    ensures
        ({
            let fields = entry_fields(entry);
            &&& fields.len() == 7
            &&& fields.contains(("session_id"@, Field::Text(uuid_text(entry.session_id.value))))
            &&& fields.contains(("ssh_target"@, Field::Text(entry.ssh_target)))
            &&& fields.contains(("resume_token"@, Field::Text(entry.resume_token)))
            &&& fields.contains(
                ("resume_token_expires_at"@, Field::Number(entry.resume_token_expires_at)),
            )
            &&& fields.contains(("quic_addr"@, Field::Text(entry.quic_addr)))
            &&& fields.contains(("cert_fingerprint"@, Field::Text(entry.cert_fingerprint)))
            &&& fields.contains(("updated_at"@, Field::Number(entry.updated_at)))
        }),
{
    let fields = entry_fields(entry);
    assert(fields[0] == ("session_id"@, Field::Text(uuid_text(entry.session_id.value))));
    assert(fields[1] == ("ssh_target"@, Field::Text(entry.ssh_target)));
    assert(fields[2] == ("resume_token"@, Field::Text(entry.resume_token)));
    assert(fields[3] == (
        "resume_token_expires_at"@,
        Field::Number(entry.resume_token_expires_at),
    ));
    assert(fields[4] == ("quic_addr"@, Field::Text(entry.quic_addr)));
    assert(fields[5] == ("cert_fingerprint"@, Field::Text(entry.cert_fingerprint)));
    assert(fields[6] == ("updated_at"@, Field::Number(entry.updated_at)));
}

/// An error that carries a message says it whole, behind what it is about.
pub proof fn law_errors_say_what_happened(m: String)
    ensures
        CacheError::Io(m).text() == "io error: "@ + m@,
        CacheError::Json(m).text() == "json error: "@ + m@,
{
}

/// What a file says of a session is read from its fields, each thing from the field of its name. The
/// host may be missing and is empty then; nothing else may be.
pub proof fn law_entries_are_read(data: Seq<u8>, r: Seq<Option<Seq<u8>>>)
    requires
        record_of(data, entry_keys()) == Ok::<Seq<Option<Seq<u8>>>, Seq<char>>(r),
    ensures
        entry_keys() == seq![
            "session_id"@,
            "ssh_target"@,
            "resume_token"@,
            "resume_token_expires_at"@,
            "quic_addr"@,
            "cert_fingerprint"@,
            "updated_at"@,
        ],
        entry_of(data) matches Ok(entry) ==> {
            &&& id_field_of(r[0], "session_id"@) == Ok::<Uuid, Seq<char>>(entry.session_id)
            &&& r[1] is Some ==> text_field_of(r[1], "ssh_target"@) == Ok::<Seq<char>, Seq<char>>(
                entry.ssh_target,
            )
            &&& r[1] is None ==> entry.ssh_target.len() == 0
            &&& text_field_of(r[2], "resume_token"@) == Ok::<Seq<char>, Seq<char>>(
                entry.resume_token,
            )
            &&& number_field_of(r[3], "resume_token_expires_at"@) == Ok::<u64, Seq<char>>(
                entry.resume_token_expires_at,
            )
            &&& text_field_of(r[4], "quic_addr"@) == Ok::<Seq<char>, Seq<char>>(entry.quic_addr)
            &&& text_field_of(r[5], "cert_fingerprint"@) == Ok::<Seq<char>, Seq<char>>(
                entry.cert_fingerprint,
            )
            &&& number_field_of(r[6], "updated_at"@) == Ok::<u64, Seq<char>>(entry.updated_at)
        },
        entry_of(data) is Ok <==> {
            &&& id_field_of(r[0], "session_id"@) is Ok
            &&& r[1] is Some ==> text_field_of(r[1], "ssh_target"@) is Ok
            &&& text_field_of(r[2], "resume_token"@) is Ok
            &&& number_field_of(r[3], "resume_token_expires_at"@) is Ok
            &&& text_field_of(r[4], "quic_addr"@) is Ok
            &&& text_field_of(r[5], "cert_fingerprint"@) is Ok
            &&& number_field_of(r[6], "updated_at"@) is Ok
        },
{
}

} // verus!
