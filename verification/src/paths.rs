//! Paths of files, as text.

use crate::ids::Uuid;
#[allow(unused_imports)]
use crate::ids::uuid_text;
use crate::text::concat;
use vstd::prelude::*;
use vstd::string::StringExecFns;

verus! {

/// The path of the relative path `leaf` in the directory `base`.
pub open spec fn joined(base: Seq<char>, leaf: Seq<char>) -> Seq<char> {
    if base.len() == 0 || base.last() == '/' {
        base + leaf
    } else {
        base.push('/') + leaf
    }
}

/// The path of the relative path `leaf` in the directory `base`.
pub fn join(base: &str, leaf: &str) -> (path: String)
    ensures
        path@ == joined(base@, leaf@),
{
    let mut path = base.to_owned();
    let cs = crate::text::chars_of(base);
    if cs.len() > 0 && cs[cs.len() - 1] != '/' {
        path.push('/');
    }
    path.append(leaf);
    path
}

/// The local control socket of a session that a program keeps in its own directory below the
/// runtime directory, which is `/tmp` where none is set.
pub open spec fn socket_path(
    runtime_dir: Option<Seq<char>>,
    program: Seq<char>,
    session_id: Uuid,
) -> Seq<char> {
    let base = match runtime_dir {
        Some(dir) => dir,
        None => "/tmp"@,
    };
    joined(joined(base, program), uuid_text(session_id.value) + ".sock"@)
}

/// The directory of a program below the runtime directory.
pub fn runtime_directory(runtime_dir: Option<&str>, program: &str) -> (path: String)
    ensures
        path@ == joined(
            match runtime_dir {
                Some(dir) => dir@,
                None => "/tmp"@,
            },
            program@,
        ),
{
    match runtime_dir {
        Some(dir) => join(dir, program),
        None => join("/tmp", program),
    }
}

/// The local control socket of a session.
pub fn session_socket(runtime_dir: Option<&str>, program: &str, session_id: Uuid) -> (path: String)
    ensures
        path@ == socket_path(
            match runtime_dir {
                Some(dir) => Some(dir@),
                None => None,
            },
            program@,
            session_id,
        ),
{
    let dir = runtime_directory(runtime_dir, program);
    let name = concat(session_id.to_text().as_str(), ".sock");
    join(dir.as_str(), name.as_str())
}

/// A path in a directory begins with the directory and ends with the rest, with exactly one slash
/// between them, whether the directory is written with one at its end or not; and in no directory
/// it is the rest itself.
pub proof fn law_one_slash_joins(base: Seq<char>, leaf: Seq<char>)
    ensures
        base.len() == 0 ==> joined(base, leaf) == leaf,
        base.len() > 0 && base[base.len() - 1] != '/' ==> {
            &&& joined(base, leaf).len() == base.len() + 1 + leaf.len()
            &&& joined(base, leaf).take(base.len() as int) == base
            &&& joined(base, leaf)[base.len() as int] == '/'
            &&& joined(base, leaf).skip(base.len() as int + 1) == leaf
            &&& joined(base.push('/'), leaf) == joined(base, leaf)
        },
        base.len() > 0 && base[base.len() - 1] == '/' ==> {
            &&& joined(base, leaf).len() == base.len() + leaf.len()
            &&& joined(base, leaf).take(base.len() as int) == base
            &&& joined(base, leaf).skip(base.len() as int) == leaf
        },
{
    if base.len() == 0 {
        assert(base + leaf =~= leaf);
    } else if base[base.len() - 1] == '/' {
        assert((base + leaf).take(base.len() as int) =~= base);
        assert((base + leaf).skip(base.len() as int) =~= leaf);
    } else {
        let path = base.push('/') + leaf;
        assert(path.take(base.len() as int) =~= base);
        assert(path.skip(base.len() as int + 1) =~= leaf);
        assert(base.push('/').last() == '/');
    }
}

/// The socket of a session stands in the directory of its program below the runtime directory, or
/// below `/tmp` where there is none, and is named after the session.
pub proof fn law_socket_path_parts(dir: Seq<char>, program: Seq<char>, session_id: Uuid)
    ensures
        socket_path(Some(dir), program, session_id) == joined(
            joined(dir, program),
            uuid_text(session_id.value) + ".sock"@,
        ),
        socket_path(None, program, session_id) == socket_path(
            Some("/tmp"@),
            program,
            session_id,
        ),
{
}

} // verus!
