//! Detaching a session from another process, over its local socket.

use crate::client::error::CliError;
#[allow(unused_imports)]
use crate::client::session::has_type;
use crate::client::session::is_type;
use crate::ids::Uuid;
#[allow(unused_imports)]
use crate::ids::{uuid_parse, uuid_text};
use crate::json::{display_json, get_bool, get_str, parse_json};
#[allow(unused_imports)]
use crate::json::{json_bool, json_display, json_parse, json_str};
use crate::paths::session_socket;
#[allow(unused_imports)]
use crate::paths::{joined, socket_path};
use crate::text::{chars_of, concat, rfind_char, split_on, str_eq, string_of};
#[allow(unused_imports)]
use crate::text::{
    last_char, law_last_char_is_last, law_parts_stand_between_separators, lemma_parts_around,
    lemma_parts_nonempty, parts, texts,
};
use vstd::prelude::*;

verus! {

/// Whether a request asks to detach this session.
pub open spec fn asks_to_detach(value: serde_json::Value, session_id: Uuid) -> bool {
    &&& has_type(value, "DETACH"@)
    &&& json_str(value, "session_id"@) == Some(uuid_text(session_id.value))
}

/// Whether a request asks to detach this session.
pub fn is_valid_detach_request(value: &serde_json::Value, expected_session_id: Uuid) -> (yes: bool)
    ensures
        yes == asks_to_detach(*value, expected_session_id),
{
    if !is_type(value, "DETACH") {
        return false;
    }
    match get_str(value, "session_id") {
        Some(id) => str_eq(id, expected_session_id.to_text().as_str()),
        None => false,
    }
}

/// How a request is answered, and whether to detach.
#[derive(Debug)]
pub struct DetachAnswer {
    pub text: &'static str,
    pub detach: bool,
}

/// Whether this answers a request that was read and found well-formed or not.
pub open spec fn answers_document(
    answer: DetachAnswer,
    read: Option<serde_json::Value>,
    session_id: Uuid,
) -> bool {
    match read {
        None => answer.text@ == "{\"ok\":false,\"error\":\"invalid request json\"}"@
            && !answer.detach,
        Some(value) => if asks_to_detach(value, session_id) {
            answer.text@ == "{\"ok\":true}"@ && answer.detach
        } else {
            answer.text@ == "{\"ok\":false,\"error\":\"invalid detach request\"}"@
                && !answer.detach
        },
    }
}

/// Answers a request that was read.
pub fn answer_document(read: Option<&serde_json::Value>, session_id: Uuid) -> (answer: DetachAnswer)
    ensures
        answers_document(
            answer,
            match read {
                Some(value) => Some(*value),
                None => None,
            },
            session_id,
        ),
{
    match read {
        None => DetachAnswer {
            text: "{\"ok\":false,\"error\":\"invalid request json\"}",
            detach: false,
        },
        Some(value) => if is_valid_detach_request(value, session_id) {
            DetachAnswer { text: "{\"ok\":true}", detach: true }
        } else {
            DetachAnswer {
                text: "{\"ok\":false,\"error\":\"invalid detach request\"}",
                detach: false,
            }
        },
    }
}

/// Answers a request on the local socket, from whether the requesting process belongs to the owner
/// and from what it sent, if that could be read.
pub fn answer_detach(peer_is_owner: bool, body: Option<&[u8]>, session_id: Uuid) -> (answer:
    DetachAnswer)
    ensures
        answer.detach ==> peer_is_owner,
        if !peer_is_owner {
            answer.text@ == "{\"ok\":false,\"error\":\"peer uid mismatch\"}"@ && !answer.detach
        } else {
            match body {
                None => answer.text@ == "{\"ok\":false,\"error\":\"invalid request body\"}"@
                    && !answer.detach,
                Some(bytes) => answers_document(
                    answer,
                    match json_parse(bytes@) {
                        Ok(value) => Some(value),
                        Err(_) => None,
                    },
                    session_id,
                ),
            }
        },
{
    if !peer_is_owner {
        return DetachAnswer {
            text: "{\"ok\":false,\"error\":\"peer uid mismatch\"}",
            detach: false,
        };
    }
    match body {
        None => DetachAnswer {
            text: "{\"ok\":false,\"error\":\"invalid request body\"}",
            detach: false,
        },
        Some(bytes) => match parse_json(bytes) {
            Ok(value) => answer_document(Some(&value), session_id),
            Err(_) => answer_document(None, session_id),
        },
    }
}

/// Whether this is what the answer to a request means to the requester.
pub open spec fn is_reply_outcome(
    outcome: Result<(), CliError>,
    read: Result<serde_json::Value, Seq<char>>,
) -> bool {
    match read {
        Err(why) => outcome matches Err(e) && e.is_protocol(why),
        Ok(value) => if json_bool(value, "ok"@) == Some(true) {
            outcome is Ok
        } else {
            outcome matches Err(e) && e.is_protocol("detach failed: "@ + json_display(value))
        },
    }
}

/// Reads the document that answers a request.
pub fn accept_detach_reply(value: &serde_json::Value) -> (outcome: Result<(), CliError>)
    ensures
        is_reply_outcome(outcome, Ok(*value)),
{
    match get_bool(value, "ok") {
        Some(true) => Ok(()),
        _ => Err(
            CliError::Protocol(concat("detach failed: ", display_json(value).as_str())),
        ),
    }
}

/// Reads the answer to a request.
pub fn check_detach_reply(buf: &[u8]) -> (outcome: Result<(), CliError>)
    ensures
        is_reply_outcome(outcome, json_parse(buf@)),
{
    match parse_json(buf) {
        Ok(value) => accept_detach_reply(&value),
        Err(why) => Err(CliError::Protocol(why)),
    }
}

/// Whether a component of a path names something: it is neither empty nor `.`.
pub open spec fn names_something(component: Seq<char>) -> bool {
    component.len() > 0 && component != "."@
}

/// The last of the first `n` components of a path that names something.
pub open spec fn last_name(components: Seq<Seq<char>>, n: int) -> Option<Seq<char>>
    decreases n,
{
    if n <= 0 || n > components.len() {
        None
    } else if names_something(components[n - 1]) {
        Some(components[n - 1])
    } else {
        last_name(components, n - 1)
    }
}

/// The name of the file at the end of a path, if the path ends with a file name.
pub open spec fn file_name(path: Seq<char>) -> Option<Seq<char>> {
    let components = parts(path, '/');
    match last_name(components, components.len() as int) {
        Some(name) => if name == ".."@ {
            None
        } else {
            Some(name)
        },
        None => None,
    }
}

/// A file name before its last dot, unless that dot comes first.
pub open spec fn stem(name: Seq<char>) -> Seq<char> {
    match last_char(name, '.', name.len() as int) {
        Some(at) => if at > 0 {
            name.take(at)
        } else {
            name
        },
        None => name,
    }
}

/// What follows the last dot of a file name, unless that dot comes first.
pub open spec fn extension(name: Seq<char>) -> Option<Seq<char>> {
    match last_char(name, '.', name.len() as int) {
        Some(at) => if at > 0 {
            Some(name.skip(at + 1))
        } else {
            None
        },
        None => None,
    }
}

/// The name of the file at the end of a path.
pub fn path_file_name(path: &str) -> (name: Option<String>)
    ensures
        match name {
            Some(n) => file_name(path@) == Some(n@),
            None => file_name(path@) is None,
        },
{
    let components = split_on(path, '/');
    let ghost all = texts(components@);
    assert(all.len() == components@.len());
    let mut n: usize = components.len();
    while n > 0
        invariant
            n <= components@.len() == all.len(),
            all == texts(components@),
            all == parts(path@, '/'),
            last_name(all, all.len() as int) == last_name(all, n as int),
        decreases n,
    {
        let component = &components[n - 1];
        assert(all[n - 1] == component@);
        if !component.as_str().is_empty() && !str_eq(component.as_str(), ".") {
            if str_eq(component.as_str(), "..") {
                return None;
            }
            return Some(component.clone());
        }
        n -= 1;
    }
    None
}

/// The session that a socket belongs to, by its path.
pub open spec fn socket_session(path: Seq<char>) -> Result<u128, Seq<char>> {
    match file_name(path) {
        None => Err("invalid session socket name: "@ + path),
        Some(name) => match uuid_parse(stem(name)) {
            Ok(id) => Ok(id),
            Err(why) => Err("invalid session socket id: "@ + why),
        },
    }
}

/// The session that a socket belongs to, by its path.
pub fn session_id_from_socket_path(path: &str) -> (id: Result<Uuid, CliError>)
    ensures
        match id {
            Ok(u) => socket_session(path@) == Ok::<u128, Seq<char>>(u.value),
            Err(e) => e matches CliError::Io(m) && socket_session(path@) == Err::<
                u128,
                Seq<char>,
            >(m@),
        },
        forall|u: Uuid|
            #![trigger uuid_text(u.value)]
            file_name(path@) is Some && stem(file_name(path@)->0) == uuid_text(u.value)
                ==> id is Ok && id->Ok_0 == u,
{
    let name = match path_file_name(path) {
        Some(n) => n,
        None => {
            return Err(CliError::Io(concat("invalid session socket name: ", path)));
        },
    };
    let cs = chars_of(name.as_str());
    let stem_text = match rfind_char(&cs, '.') {
        Some(at) => if at > 0 {
            assert(cs@.subrange(0, at as int) =~= cs@.take(at as int));
            string_of(&cs, 0, at)
        } else {
            name.clone()
        },
        None => name.clone(),
    };
    match Uuid::parse_str(stem_text.as_str()) {
        Ok(u) => Ok(u),
        Err(why) => Err(CliError::Io(concat("invalid session socket id: ", why.as_str()))),
    }
}

/// Whether a path is that of a socket.
pub open spec fn is_socket(path: Seq<char>) -> bool {
    file_name(path) matches Some(name) && extension(name) == Some("sock"@)
}

/// Whether a path is that of a socket.
pub fn has_socket_extension(path: &str) -> (yes: bool)
    ensures
        yes == is_socket(path@),
{
    match path_file_name(path) {
        Some(name) => {
            let cs = chars_of(name.as_str());
            let n = cs.len();
            match rfind_char(&cs, '.') {
                Some(at) => if at > 0 {
                    assert(cs@.skip(at + 1) =~= cs@.subrange(at + 1, n as int));
                    str_eq(string_of(&cs, at + 1, n).as_str(), "sock")
                } else {
                    false
                },
                None => false,
            }
        },
        None => false,
    }
}

/// Whether none of these paths is that of a socket.
pub open spec fn are_no_sockets(paths: Seq<String>) -> bool {
    forall|j: int| 0 <= j < paths.len() ==> !is_socket(#[trigger] paths[j]@)
}

/// The position of the first socket among the files of a directory.
pub fn discover_active_socket(paths: &Vec<String>) -> (found: Result<usize, CliError>)
    ensures
        match found {
            Ok(i) => {
                &&& i < paths@.len()
                &&& is_socket(paths@[i as int]@)
                &&& forall|j: int| 0 <= j < i ==> !is_socket(#[trigger] paths@[j]@)
            },
            Err(e) => {
                &&& e matches CliError::Io(m) && m@ == "no active session socket found"@
                &&& forall|j: int| 0 <= j < paths@.len() ==> !is_socket(#[trigger] paths@[j]@)
                &&& are_no_sockets(paths@)
            },
        },
{
    let mut i: usize = 0;
    while i < paths.len()
        invariant
            i <= paths@.len(),
            forall|j: int| 0 <= j < i ==> !is_socket(#[trigger] paths@[j]@),
        decreases paths@.len() - i,
    {
        if has_socket_extension(paths[i].as_str()) {
            return Ok(i);
        }
        i += 1;
    }
    Err(CliError::Io("no active session socket found".to_owned()))
}

/// The socket over which a session is detached, in the directory `neosh` of the runtime directory.
pub fn ipc_socket_path(runtime_dir: Option<&str>, session_id: Uuid) -> (path: String)
    ensures
        path@ == socket_path(
            match runtime_dir {
                Some(dir) => Some(dir@),
                None => None,
            },
            "neosh"@,
            session_id,
        ),
{
    session_socket(runtime_dir, "neosh", session_id)
}

/// The last part of a text is what follows its last separator.
proof fn lemma_last_part(before: Seq<char>, last: Seq<char>, sep: char)
    requires
        forall|i: int| 0 <= i < last.len() ==> #[trigger] last[i] != sep,
    ensures
        parts(before.push(sep) + last, sep).last() == last,
    decreases last.len(),
{
    let text = before.push(sep) + last;
    lemma_parts_nonempty(text.drop_last(), sep);
    if last.len() == 0 {
        assert(text =~= before.push(sep));
        assert(parts(text, sep).last() =~= last);
    } else {
        let shorter = last.drop_last();
        assert forall|i: int| 0 <= i < shorter.len() implies #[trigger] shorter[i] != sep by {
            assert(shorter[i] == last[i]);
        }
        lemma_last_part(before, shorter, sep);
        assert(text.drop_last() =~= before.push(sep) + shorter);
        assert(text.last() == last[last.len() - 1]);
        assert(shorter.push(last.last()) =~= last);
    }
}

/// The path of a session's socket names the session: whoever finds the socket can tell which
/// session it detaches.
pub proof fn law_socket_names_its_session(
    runtime_dir: Option<Seq<char>>,
    program: Seq<char>,
    session_id: Uuid,
)
    requires
        program.len() > 0,
        program.last() != '/',
    ensures
        ({
            let path = socket_path(runtime_dir, program, session_id);
            &&& is_socket(path)
            &&& file_name(path) == Some(uuid_text(session_id.value) + ".sock"@)
            &&& stem(file_name(path)->0) == uuid_text(session_id.value)
        }),
{
    let path = socket_path(runtime_dir, program, session_id);
    let id = uuid_text(session_id.value);
    let name = id + ".sock"@;
    let base = match runtime_dir {
        Some(dir) => dir,
        None => "/tmp"@,
    };
    let dir = joined(base, program);
    reveal_strlit(".sock");
    reveal_strlit("sock");
    reveal_strlit(".");
    reveal_strlit("..");
    assert(".sock"@.len() == 5 && "."@.len() == 1 && ".."@.len() == 2);
    assert(".sock"@[0] == '.' && ".sock"@[1] == 's' && ".sock"@[2] == 'o' && ".sock"@[3] == 'c'
        && ".sock"@[4] == 'k');
    assert(dir.last() == program.last());
    assert(path =~= dir.push('/') + name);
    assert forall|i: int| 0 <= i < name.len() implies #[trigger] name[i] != '/' by {
        if i < 36 {
            assert(name[i] == id[i]);
        } else {
            assert(name[i] == ".sock"@[i - 36]);
        }
    }
    lemma_last_part(dir, name, '/');
    lemma_parts_nonempty(path, '/');
    assert(name.len() == 41);
    assert(last_name(parts(path, '/'), parts(path, '/').len() as int) == Some(name));
    assert(name[40] == 'k' && name[39] == 'c' && name[38] == 'o' && name[37] == 's' && name[36]
        == '.');
    assert(last_char(name, '.', 41) == Some(36int)) by {
        reveal_with_fuel(last_char, 6);
    }
    assert(name.take(36) =~= id);
    assert(name.skip(37) =~= "sock"@);
}

/// A file name is split at its last dot, if something stands before it: the stem comes before the
/// dot and the extension after it.
pub proof fn law_names_are_split_at_the_last_dot(before: Seq<char>, after: Seq<char>)
    requires
        before.len() > 0,
        forall|i: int| 0 <= i < after.len() ==> #[trigger] after[i] != '.',
    ensures
        stem(before.push('.') + after) == before,
        extension(before.push('.') + after) == Some(after),
        stem(seq!['.'] + after) == seq!['.'] + after,
        extension(seq!['.'] + after) is None,
        stem(after) == after,
        extension(after) is None,
{
    let name = before.push('.') + after;
    let hidden = seq!['.'] + after;
    law_last_char_is_last(name, '.');
    law_last_char_is_last(hidden, '.');
    law_last_char_is_last(after, '.');
    assert(name[before.len() as int] == '.');
    assert(hidden[0] == '.');
    assert(last_char(name, '.', name.len() as int) == Some(before.len() as int));
    assert(last_char(hidden, '.', hidden.len() as int) == Some(0int));
    assert(name.take(before.len() as int) =~= before);
    assert(name.skip(before.len() as int + 1) =~= after);
}

/// The name of a file is what follows the last slash of its path, even if slashes follow it; a path
/// that ends with `..` has none.
pub proof fn law_file_names_follow_the_last_slash(dir: Seq<char>, name: Seq<char>)
    requires
        name.len() > 0,
        name != "."@,
        forall|i: int| 0 <= i < name.len() ==> #[trigger] name[i] != '/',
    ensures
        name != ".."@ ==> {
            &&& file_name(dir.push('/') + name) == Some(name)
            &&& file_name((dir.push('/') + name).push('/')) == Some(name)
            &&& file_name(name) == Some(name)
        },
        name == ".."@ ==> file_name(dir.push('/') + name) is None,
{
    let path = dir.push('/') + name;
    assert(!name.contains('/'));
    law_parts_stand_between_separators(name, name, '/');
    lemma_last_part(dir, name, '/');
    lemma_parts_nonempty(path, '/');
    let slashed = path.push('/');
    assert(slashed.drop_last() =~= path);
    assert(parts(slashed, '/') == parts(path, '/').push(Seq::<char>::empty()));
    reveal_with_fuel(last_name, 3);
}

/// A socket belongs to the session that its file name names, if the name is that of a session; what
/// is wrong with it is said otherwise.
pub proof fn law_sockets_are_told_apart(path: Seq<char>, name: Seq<char>)
    requires
        file_name(path) == Some(name),
    ensures
        socket_session(path) is Ok <==> uuid_parse(stem(name)) is Ok,
        socket_session(path) matches Ok(id) ==> uuid_parse(stem(name)) == Ok::<u128, Seq<char>>(id),
        is_socket(path) <==> extension(name) == Some("sock"@),
{
}

/// A request to detach is granted exactly if it is of the type `DETACH` and names this session, and
/// the requester is told whether it was.
pub proof fn law_who_may_ask_to_detach(
    answer: DetachAnswer,
    value: serde_json::Value,
    session_id: Uuid,
)
    requires
        answers_document(answer, Some(value), session_id),
    ensures
        answer.detach <==> json_str(value, "type"@) == Some("DETACH"@) && json_str(
            value,
            "session_id"@,
        ) == Some(uuid_text(session_id.value)),
        answer.detach ==> answer.text@ == "{\"ok\":true}"@,
        !answer.detach ==> answer.text@
            == "{\"ok\":false,\"error\":\"invalid detach request\"}"@,
{
}

/// A requester takes its request for granted exactly if the answer says `ok`, and otherwise says
/// what the answer was.
pub proof fn law_detach_replies(outcome: Result<(), CliError>, value: serde_json::Value)
    requires
        is_reply_outcome(outcome, Ok(value)),
    ensures
        outcome is Ok <==> json_bool(value, "ok"@) == Some(true),
        outcome matches Err(e) ==> e.is_protocol("detach failed: "@ + json_display(value)),
{
}

/// What names the first components of a path does not depend on what follows them.
proof fn lemma_last_name_of_first(components: Seq<Seq<char>>, more: Seq<Seq<char>>, n: int)
    requires
        0 <= n <= components.len(),
    ensures
        last_name(components + more, n) == last_name(components, n),
    decreases n,
{
    if n > 0 {
        lemma_last_name_of_first(components, more, n - 1);
        assert((components + more)[n - 1] == components[n - 1]);
    }
}

/// A slash at the end of a path, or a `.` behind it, does not change what it names.
pub proof fn law_trailing_slashes_and_dots(path: Seq<char>)
    ensures
        file_name(path.push('/')) == file_name(path),
        file_name(path.push('/') + "."@) == file_name(path),
{
    reveal_strlit(".");
    let components = parts(path, '/');
    let nothing = Seq::<char>::empty();
    let n = components.len() as int;
    lemma_parts_around(path, nothing, '/');
    assert(path.push('/') + nothing =~= path.push('/'));
    assert(parts(path.push('/'), '/') =~= components + seq![nothing]);
    lemma_last_name_of_first(components, seq![nothing], n);
    assert((components + seq![nothing])[n] == nothing);
    assert(!("."@.contains('/'))) by {
        assert(forall|i: int| 0 <= i < "."@.len() ==> "."@[i] == '.');
    }
    law_parts_stand_between_separators("."@, "."@, '/');
    lemma_parts_around(path, "."@, '/');
    lemma_last_name_of_first(components, seq!["."@], n);
    assert((components + seq!["."@])[n] == "."@);
}

} // verus!
