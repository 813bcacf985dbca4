//! What can go wrong on the client.

use crate::ids::Uuid;
use crate::text::concat;
use vstd::prelude::*;

verus! {

/// What went wrong on the client.
#[derive(Debug)]
pub enum CliError {
    Bootstrap(String),
    Quic(String),
    Protocol(String),
    Cache(String),
    Io(String),
    AuthFailed,
    Disconnected(Uuid),
    Closed,
}

impl CliError {
    /// What the error says.
    pub open spec fn text(self) -> Seq<char> {
        match self {
            CliError::Bootstrap(m) => "bootstrap failed: "@ + m@,
            CliError::Quic(m) => "quic failed: "@ + m@,
            CliError::Protocol(m) => "protocol failed: "@ + m@,
            CliError::Cache(m) => "cache failed: "@ + m@,
            CliError::Io(m) => "io failed: "@ + m@,
            CliError::AuthFailed => "auth failed"@,
            CliError::Disconnected(_) => "connection lost while attached"@,
            CliError::Closed => "session closed"@,
        }
    }

    /// What the error says.
    pub fn message(&self) -> (m: String)
        ensures
            m@ == self.text(),
    {
        match self {
            CliError::Bootstrap(m) => concat("bootstrap failed: ", m.as_str()),
            CliError::Quic(m) => concat("quic failed: ", m.as_str()),
            CliError::Protocol(m) => concat("protocol failed: ", m.as_str()),
            CliError::Cache(m) => concat("cache failed: ", m.as_str()),
            CliError::Io(m) => concat("io failed: ", m.as_str()),
            CliError::AuthFailed => "auth failed".to_owned(),
            CliError::Disconnected(_) => "connection lost while attached".to_owned(),
            CliError::Closed => "session closed".to_owned(),
        }
    }

    /// Whether this is a protocol error that says this.
    pub open spec fn is_protocol(self, m: Seq<char>) -> bool {
        self matches CliError::Protocol(t) && t@ == m
    }
}

/// An error that carries a message says it whole, behind what it is about.
pub proof fn law_errors_say_what_happened(m: String, id: Uuid)
    ensures
        CliError::Bootstrap(m).text() == "bootstrap failed: "@ + m@,
        CliError::Quic(m).text() == "quic failed: "@ + m@,
        CliError::Protocol(m).text() == "protocol failed: "@ + m@,
        CliError::Cache(m).text() == "cache failed: "@ + m@,
        CliError::Io(m).text() == "io failed: "@ + m@,
        CliError::AuthFailed.text() == "auth failed"@,
        CliError::Disconnected(id).text() == "connection lost while attached"@,
        CliError::Closed.text() == "session closed"@,
{
}

} // verus!
