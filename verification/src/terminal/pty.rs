//! How the shell of a session is started.

use crate::shell::shell_single_quote;
#[allow(unused_imports)]
use crate::shell::{law_shell_reads_quoted_text, quoted, shell_word};
use crate::text::concat;
#[allow(unused_imports)]
use crate::text::texts;
use vstd::prelude::*;
use vstd::string::StringExecFns;

verus! {

/// What can go wrong with a terminal.
#[derive(Debug)]
pub enum PtyError {
    Open(String),
    Spawn(String),
    Read(String),
    Write(String),
    Resize(String),
    Wait(String),
    ReaderTaken,
}

impl PtyError {
    /// What the error says.
    pub open spec fn text(self) -> Seq<char> {
        match self {
            PtyError::Open(m) => "open pty failed: "@ + m@,
            PtyError::Spawn(m) => "spawn command failed: "@ + m@,
            PtyError::Read(m) => "read output failed: "@ + m@,
            PtyError::Write(m) => "write input failed: "@ + m@,
            PtyError::Resize(m) => "resize failed: "@ + m@,
            PtyError::Wait(m) => "wait command failed: "@ + m@,
            PtyError::ReaderTaken => "pty reader already taken"@,
        }
    }

    /// What the error says.
    pub fn message(&self) -> (m: String)
        ensures
            m@ == self.text(),
    {
        match self {
            PtyError::Open(m) => concat("open pty failed: ", m.as_str()),
            PtyError::Spawn(m) => concat("spawn command failed: ", m.as_str()),
            PtyError::Read(m) => concat("read output failed: ", m.as_str()),
            PtyError::Write(m) => concat("write input failed: ", m.as_str()),
            PtyError::Resize(m) => concat("resize failed: ", m.as_str()),
            PtyError::Wait(m) => concat("wait command failed: ", m.as_str()),
            PtyError::ReaderTaken => "pty reader already taken".to_owned(),
        }
    }
}

/// The arguments of the shell: an interactive login shell, after a command if one is given.
pub open spec fn login_arguments(shell: Seq<char>, startup_command: Option<Seq<char>>) -> Seq<
    Seq<char>,
> {
    match startup_command {
        Some(command) => seq!["-lc"@, command + "; exec "@ + quoted(shell) + " -li"@],
        None => seq!["-li"@],
    }
}

/// The arguments of the shell.
pub fn shell_arguments(shell: &str, startup_command: Option<&str>) -> (args: Vec<String>)
    ensures
        texts(args@) == login_arguments(
            shell@,
            match startup_command {
                Some(c) => Some(c@),
                None => None,
            },
        ),
{
    let mut args: Vec<String> = Vec::new();
    match startup_command {
        Some(command) => {
            args.push("-lc".to_owned());
            let mut script = concat(command, "; exec ");
            script.append(shell_single_quote(shell).as_str());
            script.append(" -li");
            args.push(script);
            assert(texts(args@) =~= login_arguments(shell@, Some(command@)));
        },
        None => {
            args.push("-li".to_owned());
            assert(texts(args@) =~= login_arguments(shell@, None));
        },
    }
    args
}

/// The kind of terminal: the value of `TERM`, or one that most programs know where it is not set.
pub fn terminal_kind(term: Option<&str>) -> (kind: String)
    ensures
        kind@ == match term {
            Some(t) => t@,
            None => "xterm-256color"@,
        },
{
    match term {
        Some(t) => t.to_owned(),
        None => "xterm-256color".to_owned(),
    }
}

/// An option whose empty value means that it is not set.
pub fn optional(value: &str) -> (set: Option<&str>)
    ensures
        match set {
            Some(v) => v@ == value@ && value@.len() > 0,
            None => value@.len() == 0,
        },
{
    if value.is_empty() {
        None
    } else {
        Some(value)
    }
}

/// A terminal of a fixed size.
#[derive(Debug)]
pub struct PtyRuntime {
    rows: u16,
    cols: u16,
}

impl PtyRuntime {
    /// The rows and the columns.
    pub closed spec fn dimensions(&self) -> (u16, u16) {
        (self.rows, self.cols)
    }

    /// A terminal of this size.
    pub fn new(rows: u16, cols: u16) -> (runtime: Result<PtyRuntime, PtyError>)
        ensures
            runtime matches Ok(r) && r.dimensions() == (rows, cols),
    {
        Ok(PtyRuntime { rows, cols })
    }

    /// The rows and the columns.
    pub fn size(&self) -> (size: (u16, u16))
        ensures
            size == self.dimensions(),
    {
        (self.rows, self.cols)
    }
}

/// Without a command the shell is started as an interactive login shell. With one it runs the
/// command as it is given, and what takes its place afterwards is the same shell, whatever
/// characters its path holds, as an interactive login shell.
pub proof fn law_shell_follows_the_command(shell: Seq<char>, command: Seq<char>) -> (word: Seq<char>)
    ensures
        login_arguments(shell, None) == seq!["-li"@],
        login_arguments(shell, Some(command)).len() == 2,
        login_arguments(shell, Some(command))[0] == "-lc"@,
        login_arguments(shell, Some(command))[1] == command + "; exec "@ + word + " -li"@,
        shell_word(word, false) == Some(shell),
{
    law_shell_reads_quoted_text(shell);
    quoted(shell)
}

/// An error that carries a message says it whole, behind what it is about.
pub proof fn law_errors_say_what_happened(m: String)
    ensures
        PtyError::Open(m).text() == "open pty failed: "@ + m@,
        PtyError::Spawn(m).text() == "spawn command failed: "@ + m@,
        PtyError::Read(m).text() == "read output failed: "@ + m@,
        PtyError::Write(m).text() == "write input failed: "@ + m@,
        PtyError::Resize(m).text() == "resize failed: "@ + m@,
        PtyError::Wait(m).text() == "wait command failed: "@ + m@,
        PtyError::ReaderTaken.text() == "pty reader already taken"@,
{
}

} // verus!
