//! The identifier under which a client is known to servers.

use crate::client::command::optional_text;
use crate::ids::Uuid;
#[allow(unused_imports)]
use crate::ids::{uuid_parse, uuid_text};
use crate::paths::join;
#[allow(unused_imports)]
use crate::paths::joined;
use crate::text::trim;
#[allow(unused_imports)]
use crate::text::trimmed;
use vstd::prelude::*;

verus! {

/// The file that holds the identifier: below the state directory of the user.
pub open spec fn identity_file(
    xdg_state_home: Option<Seq<char>>,
    home: Option<Seq<char>>,
) -> Seq<char> {
    let base = match xdg_state_home {
        Some(dir) => dir,
        None => joined(
            joined(
                match home {
                    Some(dir) => dir,
                    None => "."@,
                },
                ".local"@,
            ),
            "state"@,
        ),
    };
    joined(joined(base, "neosh"@), "client_id"@)
}

/// The file that holds the identifier, from the values of `XDG_STATE_HOME` and `HOME`.
pub fn client_id_path(xdg_state_home: Option<&str>, home: Option<&str>) -> (path: String)
    ensures
        path@ == identity_file(optional_text(xdg_state_home), optional_text(home)),
{
    let base = match xdg_state_home {
        Some(dir) => dir.to_owned(),
        None => {
            let local = match home {
                Some(dir) => join(dir, ".local"),
                None => join(".", ".local"),
            };
            join(local.as_str(), "state")
        },
    };
    join(join(base.as_str(), "neosh").as_str(), "client_id")
}

/// The identifier of a client, and whether it has to be written down.
#[derive(Debug, Clone, Copy, PartialEq, Eq, Structural)]
pub struct Identity {
    pub client_id: Uuid,
    pub is_new: bool,
}

/// The identifier in the file if it holds one, and a new one otherwise.
pub open spec fn chosen_identity(contents: Option<Seq<char>>, fresh: Uuid) -> Identity {
    match contents {
        Some(text) => match uuid_parse(trimmed(text)) {
            Ok(id) => Identity { client_id: Uuid { value: id }, is_new: false },
            Err(_) => Identity { client_id: fresh, is_new: true },
        },
        None => Identity { client_id: fresh, is_new: true },
    }
}

/// Chooses the identifier from what the file holds, if it could be read, and a new one.
pub fn choose_client_id(contents: Option<&str>, fresh: Uuid) -> (identity: Identity)
    ensures
        identity == chosen_identity(optional_text(contents), fresh),
        contents matches Some(text) ==> forall|u: Uuid|
            #![trigger uuid_text(u.value)]
            trimmed(text@) == uuid_text(u.value) ==> identity.client_id == u && !identity.is_new,
{
    match contents {
        Some(text) => match Uuid::parse_str(trim(text).as_str()) {
            Ok(client_id) => Identity { client_id, is_new: false },
            Err(_) => Identity { client_id: fresh, is_new: true },
        },
        None => Identity { client_id: fresh, is_new: true },
    }
}

/// The identifier in a message, if it carries one that can be read.
pub fn read_client_id(text: Option<&str>) -> (client_id: Option<Uuid>)
    ensures
        client_id == match text {
            Some(t) => match uuid_parse(t@) {
                Ok(id) => Some(Uuid { value: id }),
                Err(_) => None,
            },
            None => None,
        },
{
    match text {
        Some(t) => match Uuid::parse_str(t) {
            Ok(id) => Some(id),
            Err(_) => None,
        },
        None => None,
    }
}

/// A client is known by the identifier in its file, with or without white space around it, and by a
/// new one where the file is missing or holds no identifier.
pub proof fn law_identity_is_kept(text: Seq<char>, id: u128, fresh: Uuid)
    ensures
        uuid_parse(trimmed(text)) == Ok::<u128, Seq<char>>(id) ==> chosen_identity(Some(text), fresh)
            == (Identity { client_id: Uuid { value: id }, is_new: false }),
        uuid_parse(trimmed(text)) is Err ==> chosen_identity(Some(text), fresh) == (Identity {
            client_id: fresh,
            is_new: true,
        }),
        chosen_identity(None, fresh) == (Identity { client_id: fresh, is_new: true }),
{
}

/// The identifier of a client stands below the state directory of its user, which is `.local/state`
/// in the home directory where none is set, and in the current directory without a home.
pub proof fn law_identity_file_place(state: Seq<char>, home: Option<Seq<char>>, dir: Seq<char>)
    ensures
        identity_file(Some(state), home) == joined(joined(state, "neosh"@), "client_id"@),
        identity_file(None, Some(dir)) == identity_file(
            Some(joined(joined(dir, ".local"@), "state"@)),
            home,
        ),
        identity_file(None, None) == identity_file(None, Some("."@)),
{
}

} // verus!
