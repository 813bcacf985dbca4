//! The commands that start or renew a session on the remote host.

use crate::ids::Uuid;
#[allow(unused_imports)]
use crate::ids::uuid_text;
#[allow(unused_imports)]
use crate::shell::{escaped, law_shell_reads_quoted_text, quoted, shell_word};
use crate::shell::{append_escaped, shell_single_quote};
#[allow(unused_imports)]
use crate::text::has_prefix;
use vstd::prelude::*;
use vstd::string::StringExecFns;

verus! {

/// What to bootstrap: a new session, or a new token for an existing one.
#[derive(Debug, Clone, Copy, PartialEq, Eq, Structural)]
pub enum BootstrapMode {
    New,
    Renew { session_id: Uuid },
}

/// An option of the remote server with its value, written for a shell inside a script in single
/// quotes.
pub open spec fn remote_option(name: Seq<char>, value: Option<Seq<char>>) -> Seq<char> {
    match value {
        Some(v) => name + escaped(quoted(v)),
        None => Seq::empty(),
    }
}

/// The script that starts a new session: it runs the server in the background and waits up to ten
/// seconds for the line that it prints.
pub open spec fn new_command(
    neoshd_path: Seq<char>,
    log_file: Option<Seq<char>>,
    working_directory: Option<Seq<char>>,
    command: Option<Seq<char>>,
) -> Seq<char> {
    "sh -lc 'set -eu; bootstrap_file=\"$(mktemp -t neosh-bootstrap.XXXXXX)\"; "@ + (match log_file {
        Some(path) => "log_file="@ + quoted(path) + "; "@,
        None => Seq::empty(),
    }) + "nohup "@ + quoted(neoshd_path) + " new --user \"$USER\""@ + remote_option(
        " --working-directory "@,
        working_directory,
    ) + remote_option(" --command "@, command) + " >\"$bootstrap_file\" "@ + (match log_file {
        Some(_) => "2>>\"$log_file\""@,
        None => "2>/dev/null"@,
    }) + " </dev/null & for i in $(seq 1 200); do if [ -s \"$bootstrap_file\" ]; then head -n 1 \"$bootstrap_file\"; rm -f \"$bootstrap_file\"; exit 0; fi; sleep 0.05; done; echo \"bootstrap timeout\" >&2; rm -f \"$bootstrap_file\"; exit 1'"@
}

/// The command that renews the token of a session.
pub open spec fn renew_command(neoshd_path: Seq<char>, session_id: Uuid) -> Seq<char> {
    neoshd_path + " renew-auth --session-id "@ + uuid_text(session_id.value)
        + " --user \"$USER\""@
}

/// A text that may be missing, as a sequence of characters.
pub open spec fn optional_text(text: Option<&str>) -> Option<Seq<char>> {
    match text {
        Some(t) => Some(t@),
        None => None,
    }
}

/// Appends an option of the remote server with its value.
fn append_option(out: &mut String, name: &str, value: Option<&str>)
    ensures
        final(out)@ == old(out)@ + remote_option(name@, optional_text(value)),
{
    let ghost start = out@;
    if let Some(v) = value {
        out.append(name);
        append_escaped(out, shell_single_quote(v).as_str());
        assert(out@ =~= start + (name@ + escaped(quoted(v@))));
    } else {
        assert(out@ =~= start + Seq::<char>::empty());
    }
}

/// The command to run on the remote host.
pub fn build_remote_command(
    mode: BootstrapMode,
    neoshd_path: &str,
    neoshd_log_file: Option<&str>,
) -> (text: String)
    ensures
        text@ == match mode {
            BootstrapMode::New => new_command(
                neoshd_path@,
                optional_text(neoshd_log_file),
                None,
                None,
            ),
            BootstrapMode::Renew { session_id } => renew_command(neoshd_path@, session_id),
        },
{
    build_remote_command_with(mode, neoshd_path, neoshd_log_file, None, None)
}

/// The command to run on the remote host, with the directory to start in and a command to run
/// before the shell.
pub fn build_remote_command_with(
    mode: BootstrapMode,
    neoshd_path: &str,
    neoshd_log_file: Option<&str>,
    working_directory: Option<&str>,
    command: Option<&str>,
) -> (text: String)
    ensures
        text@ == match mode {
            BootstrapMode::New => new_command(
                neoshd_path@,
                optional_text(neoshd_log_file),
                optional_text(working_directory),
                optional_text(command),
            ),
            BootstrapMode::Renew { session_id } => renew_command(neoshd_path@, session_id),
        },
{
    match mode {
        BootstrapMode::New => {
            let mut text =
                "sh -lc 'set -eu; bootstrap_file=\"$(mktemp -t neosh-bootstrap.XXXXXX)\"; ".to_owned();
            let ghost head = text@;
            if let Some(path) = neoshd_log_file {
                text.append("log_file=");
                text.append(shell_single_quote(path).as_str());
                text.append("; ");
            }
            let ghost setup = match optional_text(neoshd_log_file) {
                Some(path) => "log_file="@ + quoted(path) + "; "@,
                None => Seq::<char>::empty(),
            };
            assert(text@ =~= head + setup);
            text.append("nohup ");
            text.append(shell_single_quote(neoshd_path).as_str());
            text.append(" new --user \"$USER\"");
            append_option(&mut text, " --working-directory ", working_directory);
            append_option(&mut text, " --command ", command);
            text.append(" >\"$bootstrap_file\" ");
            if neoshd_log_file.is_some() {
                text.append("2>>\"$log_file\"");
            } else {
                text.append("2>/dev/null");
            }
            text.append(
                " </dev/null & for i in $(seq 1 200); do if [ -s \"$bootstrap_file\" ]; then head -n 1 \"$bootstrap_file\"; rm -f \"$bootstrap_file\"; exit 0; fi; sleep 0.05; done; echo \"bootstrap timeout\" >&2; rm -f \"$bootstrap_file\"; exit 1'",
            );
            text
        },
        BootstrapMode::Renew { session_id } => {
            let mut text = neoshd_path.to_owned();
            text.append(" renew-auth --session-id ");
            text.append(session_id.to_text().as_str());
            text.append(" --user \"$USER\"");
            text
        },
    }
}

/// Whether a text is one word: no space stands in it.
pub open spec fn is_word(text: Seq<char>) -> bool {
    forall|i: int| 0 <= i < text.len() ==> #[trigger] text[i] != ' '
}

/// Where a descriptor of a command leads after the first `n` of these redirections, which are done
/// from left to right. Without any, it leads nowhere in particular.
pub open spec fn leads_to(redirections: Seq<Seq<char>>, n: int, descriptor: int) -> Option<
    Seq<char>,
>
    decreases n,
{
    if n <= 0 || n > redirections.len() {
        None
    } else {
        let word = redirections[n - 1];
        if has_prefix(word, "1>&2"@) && descriptor == 1 {
            leads_to(redirections, n - 1, 2)
        } else if has_prefix(word, "2>&1"@) && descriptor == 2 {
            leads_to(redirections, n - 1, 1)
        } else if has_prefix(word, "2>>"@) && descriptor == 2 {
            Some(word.skip(3))
        } else if has_prefix(word, "2>"@) && descriptor == 2 {
            Some(word.skip(2))
        } else if has_prefix(word, "1>"@) && descriptor == 1 {
            Some(word.skip(2))
        } else if has_prefix(word, ">"@) && descriptor == 1 {
            Some(word.skip(1))
        } else if has_prefix(word, "<"@) && descriptor == 0 {
            Some(word.skip(1))
        } else {
            leads_to(redirections, n - 1, descriptor)
        }
    }
}

/// A text does not begin with another one from which it differs at some place.
proof fn lemma_other_prefix(text: Seq<char>, prefix: Seq<char>, i: int)
    requires
        0 <= i < text.len(),
        i < prefix.len(),
        text[i] != prefix[i],
    ensures
        !has_prefix(text, prefix),
{
    if has_prefix(text, prefix) {
        assert(text.take(prefix.len() as int)[i] == text[i]);
    }
}

/// The three redirections of the server, as they are written.
proof fn lemma_redirections(logged: bool) -> (words: Seq<Seq<char>>)
    ensures
        words == seq![
            ">\"$bootstrap_file\""@,
            if logged {
                "2>>\"$log_file\""@
            } else {
                "2>/dev/null"@
            },
            "</dev/null"@,
        ],
        forall|i: int| 0 <= i < 3 ==> is_word(#[trigger] words[i]),
        leads_to(words, 3, 1) == Some("\"$bootstrap_file\""@),
        leads_to(words, 3, 2) == Some(
            if logged {
                "\"$log_file\""@
            } else {
                "/dev/null"@
            },
        ),
        leads_to(words, 3, 0) == Some("/dev/null"@),
{
    let out = ">\"$bootstrap_file\""@;
    let err = if logged {
        "2>>\"$log_file\""@
    } else {
        "2>/dev/null"@
    };
    let input = "</dev/null"@;
    let words = seq![out, err, input];
    reveal_with_fuel(leads_to, 4);
    reveal_strlit("1>&2");
    reveal_strlit("2>&1");
    reveal_strlit("2>>");
    reveal_strlit("2>");
    reveal_strlit("1>");
    reveal_strlit(">");
    reveal_strlit("<");
    reveal_strlit(">\"$bootstrap_file\"");
    reveal_strlit("\"$bootstrap_file\"");
    reveal_strlit("2>>\"$log_file\"");
    reveal_strlit("\"$log_file\"");
    reveal_strlit("2>/dev/null");
    reveal_strlit("</dev/null");
    reveal_strlit("/dev/null");
    lemma_other_prefix(out, "1>&2"@, 0);
    lemma_other_prefix(out, "1>"@, 0);
    lemma_other_prefix(err, "1>&2"@, 0);
    lemma_other_prefix(err, "1>"@, 0);
    lemma_other_prefix(err, ">"@, 0);
    lemma_other_prefix(err, "2>&1"@, 2);
    lemma_other_prefix(input, "1>&2"@, 0);
    lemma_other_prefix(input, "2>&1"@, 0);
    lemma_other_prefix(input, "2>>"@, 0);
    lemma_other_prefix(input, "2>"@, 0);
    lemma_other_prefix(input, "1>"@, 0);
    lemma_other_prefix(input, ">"@, 0);
    assert(out.take(1) =~= ">"@);
    assert(out.skip(1) =~= "\"$bootstrap_file\""@);
    assert(input.take(1) =~= "<"@);
    assert(input.skip(1) =~= "/dev/null"@);
    if logged {
        assert(err.take(3) =~= "2>>"@);
        assert(err.skip(3) =~= "\"$log_file\""@);
    } else {
        lemma_other_prefix(err, "2>>"@, 2);
        assert(err.take(2) =~= "2>"@);
        assert(err.skip(2) =~= "/dev/null"@);
    }
    words
}

/// The ends of the script that follow its redirections.
proof fn lemma_script_parts()
    ensures
        " >\"$bootstrap_file\" "@ == seq![' '] + ">\"$bootstrap_file\""@ + seq![' '],
        " </dev/null & for i in $(seq 1 200); do if [ -s \"$bootstrap_file\" ]; then head -n 1 \"$bootstrap_file\"; rm -f \"$bootstrap_file\"; exit 0; fi; sleep 0.05; done; echo \"bootstrap timeout\" >&2; rm -f \"$bootstrap_file\"; exit 1'"@ == seq![' '] + "</dev/null"@ + " & for i in $(seq 1 200); do if [ -s \"$bootstrap_file\" ]; then head -n 1 \"$bootstrap_file\"; rm -f \"$bootstrap_file\"; exit 0; fi; sleep 0.05; done; echo \"bootstrap timeout\" >&2; rm -f \"$bootstrap_file\"; exit 1'"@,
{
    reveal_strlit(" >\"$bootstrap_file\" ");
    reveal_strlit(">\"$bootstrap_file\"");
    reveal_strlit("</dev/null");
    reveal_strlit(" </dev/null & for i in $(seq 1 200); do if [ -s \"$bootstrap_file\" ]; then head -n 1 \"$bootstrap_file\"; rm -f \"$bootstrap_file\"; exit 0; fi; sleep 0.05; done; echo \"bootstrap timeout\" >&2; rm -f \"$bootstrap_file\"; exit 1'");
    reveal_strlit(" & for i in $(seq 1 200); do if [ -s \"$bootstrap_file\" ]; then head -n 1 \"$bootstrap_file\"; rm -f \"$bootstrap_file\"; exit 0; fi; sleep 0.05; done; echo \"bootstrap timeout\" >&2; rm -f \"$bootstrap_file\"; exit 1'");
}

/// The script that starts a session runs the server with exactly three redirections: what it prints
/// goes to the file that the script waits for, what it complains of goes to the log file if one is
/// given and nowhere otherwise, and it reads nothing. The rest of the script is the same either way.
pub proof fn law_bootstrap_line_reaches_the_file(
    neoshd_path: Seq<char>,
    log_file: Option<Seq<char>>,
    working_directory: Option<Seq<char>>,
    command: Option<Seq<char>>,
) -> (redirections: Seq<Seq<char>>)
    ensures
        redirections.len() == 3,
        forall|i: int| 0 <= i < 3 ==> is_word(#[trigger] redirections[i]),
        leads_to(redirections, 3, 1) == Some("\"$bootstrap_file\""@),
        leads_to(redirections, 3, 2) == Some(
            if log_file is Some {
                "\"$log_file\""@
            } else {
                "/dev/null"@
            },
        ),
        leads_to(redirections, 3, 0) == Some("/dev/null"@),
        new_command(neoshd_path, log_file, working_directory, command)
            == "sh -lc 'set -eu; bootstrap_file=\"$(mktemp -t neosh-bootstrap.XXXXXX)\"; "@ + (
        match log_file {
            Some(path) => "log_file="@ + quoted(path) + "; "@,
            None => Seq::empty(),
        }) + "nohup "@ + quoted(neoshd_path) + " new --user \"$USER\""@ + remote_option(
            " --working-directory "@,
            working_directory,
        ) + remote_option(" --command "@, command) + seq![' '] + redirections[0] + seq![' ']
            + redirections[1] + seq![' '] + redirections[2]
            + " & for i in $(seq 1 200); do if [ -s \"$bootstrap_file\" ]; then head -n 1 \"$bootstrap_file\"; rm -f \"$bootstrap_file\"; exit 0; fi; sleep 0.05; done; echo \"bootstrap timeout\" >&2; rm -f \"$bootstrap_file\"; exit 1'"@,
{
    lemma_script_parts();
    let words = lemma_redirections(log_file is Some);
    let before = "sh -lc 'set -eu; bootstrap_file=\"$(mktemp -t neosh-bootstrap.XXXXXX)\"; "@ + (
    match log_file {
        Some(path) => "log_file="@ + quoted(path) + "; "@,
        None => Seq::empty(),
    }) + "nohup "@ + quoted(neoshd_path) + " new --user \"$USER\""@ + remote_option(
        " --working-directory "@,
        working_directory,
    ) + remote_option(" --command "@, command);
    assert(new_command(neoshd_path, log_file, working_directory, command) =~= before + seq![' ']
        + words[0] + seq![' '] + words[1] + seq![' '] + words[2]
        + " & for i in $(seq 1 200); do if [ -s \"$bootstrap_file\" ]; then head -n 1 \"$bootstrap_file\"; rm -f \"$bootstrap_file\"; exit 0; fi; sleep 0.05; done; echo \"bootstrap timeout\" >&2; rm -f \"$bootstrap_file\"; exit 1'"@);
    words
}

/// A directory or a command that is given reaches the server as it is, whatever characters it holds:
/// what stands behind the option is read by the shell that gets the script as a word, and that word
/// by the shell that runs the script as the value. Nothing stands there where none is given.
pub proof fn law_options_reach_the_server(name: Seq<char>, value: Seq<char>) -> (words: (
    Seq<char>,
    Seq<char>,
))
    ensures
        remote_option(name, None) == Seq::<char>::empty(),
        remote_option(name, Some(value)) == name + words.0,
        shell_word(seq!['\''] + words.0 + seq!['\''], false) == Some(words.1),
        shell_word(words.1, false) == Some(value),
{
    law_shell_reads_quoted_text(value);
    law_shell_reads_quoted_text(quoted(value));
    (escaped(quoted(value)), quoted(value))
}

/// The command that renews a token names the server, the session and the user who runs it.
pub proof fn law_renewal_names_the_session(neoshd_path: Seq<char>, session_id: Uuid)
    ensures
        renew_command(neoshd_path, session_id) == neoshd_path + " renew-auth --session-id "@
            + uuid_text(session_id.value) + " --user \"$USER\""@,
{
}

/// The script without a log file is the one with a log file, but for naming the file and for where
/// complaints go.
pub proof fn law_log_file_changes_nothing_else(
    neoshd_path: Seq<char>,
    log_file: Seq<char>,
    working_directory: Option<Seq<char>>,
    command: Option<Seq<char>>,
) -> (pieces: (Seq<char>, Seq<char>, Seq<char>))
    ensures
        new_command(neoshd_path, None, working_directory, command) == pieces.0 + pieces.1
            + "2>/dev/null"@ + pieces.2,
        new_command(neoshd_path, Some(log_file), working_directory, command) == pieces.0 + (
        "log_file="@ + quoted(log_file) + "; "@) + pieces.1 + "2>>\"$log_file\""@ + pieces.2,
{
    lemma_script_parts();
    let before = "sh -lc 'set -eu; bootstrap_file=\"$(mktemp -t neosh-bootstrap.XXXXXX)\"; "@;
    let middle = "nohup "@ + quoted(neoshd_path) + " new --user \"$USER\""@ + remote_option(
        " --working-directory "@,
        working_directory,
    ) + remote_option(" --command "@, command) + " >\"$bootstrap_file\" "@;
    let after =
        " </dev/null & for i in $(seq 1 200); do if [ -s \"$bootstrap_file\" ]; then head -n 1 \"$bootstrap_file\"; rm -f \"$bootstrap_file\"; exit 0; fi; sleep 0.05; done; echo \"bootstrap timeout\" >&2; rm -f \"$bootstrap_file\"; exit 1'"@;
    assert(new_command(neoshd_path, None, working_directory, command) =~= before + middle
        + "2>/dev/null"@ + after);
    assert(new_command(neoshd_path, Some(log_file), working_directory, command) =~= before + (
    "log_file="@ + quoted(log_file) + "; "@) + middle + "2>>\"$log_file\""@ + after);
    (before, middle, after)
}

} // verus!
