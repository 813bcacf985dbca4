//! Session, token and control-plane logic of a resumable remote terminal
//! served over QUIC, with its behaviour stated in contracts and proved.

pub mod agreement;
pub mod client;
pub mod digest;
pub mod document;
pub mod ffi;
pub mod fields;
pub mod ids;
pub mod json;
pub mod operations;
pub mod paths;
pub mod protocol;
pub mod runtime;
pub mod server;
pub mod session;
pub mod shell;
pub mod terminal;
pub mod text;
pub mod time;
pub mod token;
pub mod transport;

use vstd::prelude::*;

verus! {

/// How clients name themselves.
pub const CLIENT_VERSION: &'static str = "neosh/0.2.0";

/// How servers name themselves.
pub const SERVER_VERSION: &'static str = "neoshd/0.2.0";

/// The version of the protocol on the wire.
pub const PROTOCOL_VERSION: &'static str = "0.1.0";

} // verus!
