//! What the client learns over SSH before it connects.

use crate::digest::is_hex_digit;
#[allow(unused_imports)]
use crate::digest::is_fingerprint;
#[allow(unused_imports)]
use crate::document::{hold_fields, is_line_of, lemma_simple_members, Field};
use crate::ids::Uuid;
#[allow(unused_imports)]
use crate::ids::uuid_text;
use crate::fields::{id_field, number_field, read_record, text_field};
#[allow(unused_imports)]
use crate::fields::{
    id_field_of, is_text_of, keys_of, lemma_find_listed, lemma_find_member, member_number,
    member_text, number_field_of, raw_field, raw_fields, record_of, text_field_of,
};
#[allow(unused_imports)]
use crate::json::{
    compact, json_str, json_u64, lists_members, object_bytes, spells, Layout,
};
#[allow(unused_imports)]
use crate::server::wire::{bootstrap_fields, lemma_bootstrap_keys};
use crate::text::{
    chars_of, concat, find_pair, lossy_text, parse_u16, rfind_char, starts_with, trim,
};
#[allow(unused_imports)]
use crate::text::{
    first_match, has_prefix, last_char, law_first_match_is_first, law_last_char_is_last,
    port_number, trimmed, utf8_lossy,
};
use vstd::prelude::*;
#[allow(unused_imports)]
use vstd::utf8::encode_utf8;

verus! {

/// What a server tells of a session: how to reach it, and a token.
#[derive(Debug, Clone, PartialEq, Eq)]
pub struct BootstrapPayload {
    pub session_id: Uuid,
    pub auth_token: String,
    pub auth_token_expires_in_seconds: u64,
    pub quic_addr: String,
    pub cert_fingerprint: String,
}

/// What a server tells of a session, with its texts as sequences of characters.
#[verifier::ext_equal]
pub struct PayloadView {
    pub session_id: Uuid,
    pub auth_token: Seq<char>,
    pub auth_token_expires_in_seconds: u64,
    pub quic_addr: Seq<char>,
    pub cert_fingerprint: Seq<char>,
}

impl View for BootstrapPayload {
    type V = PayloadView;

    open spec fn view(&self) -> PayloadView {
        PayloadView {
            session_id: self.session_id,
            auth_token: self.auth_token@,
            auth_token_expires_in_seconds: self.auth_token_expires_in_seconds,
            quic_addr: self.quic_addr@,
            cert_fingerprint: self.cert_fingerprint@,
        }
    }
}

/// Why a session cannot be bootstrapped.
#[derive(Debug)]
pub enum BootstrapError {
    SshCommand(String),
    InvalidJson(String),
    InvalidPayload(String),
}

impl BootstrapError {
    /// What the error says.
    pub open spec fn text(self) -> Seq<char> {
        match self {
            BootstrapError::SshCommand(m) => "ssh command failed: "@ + m@,
            BootstrapError::InvalidJson(m) => "invalid bootstrap json: "@ + m@,
            BootstrapError::InvalidPayload(m) => "invalid bootstrap payload: "@ + m@,
        }
    }

    /// What the error says.
    pub fn message(&self) -> (m: String)
        ensures
            m@ == self.text(),
    {
        match self {
            BootstrapError::SshCommand(m) => concat("ssh command failed: ", m.as_str()),
            BootstrapError::InvalidJson(m) => concat("invalid bootstrap json: ", m.as_str()),
            BootstrapError::InvalidPayload(m) => concat("invalid bootstrap payload: ", m.as_str()),
        }
    }
}

/// What a command printed, and whether it succeeded.
#[derive(Debug)]
pub struct CommandOutput {
    pub success: bool,
    pub stdout: Vec<u8>,
    pub stderr: Vec<u8>,
}

/// What a remote command answered, or why it failed: what it printed, without white space around
/// it.
pub open spec fn command_answer(output: Result<CommandOutput, String>) -> Result<
    Seq<char>,
    Seq<char>,
> {
    match output {
        Err(why) => Err(why@),
        Ok(o) => if o.success {
            Ok(trimmed(utf8_lossy(o.stdout@)))
        } else {
            Err(trimmed(utf8_lossy(o.stderr@)))
        },
    }
}

/// Whether this is the answer of a remote command, or its failure.
pub open spec fn is_answer(
    answer: Result<String, BootstrapError>,
    expected: Result<Seq<char>, Seq<char>>,
) -> bool {
    match (answer, expected) {
        (Ok(text), Ok(want)) => text@ == want,
        (Err(BootstrapError::SshCommand(m)), Err(want)) => m@ == want,
        _ => false,
    }
}

/// Reads what a remote command answered.
pub fn run_remote_command(output: Result<CommandOutput, String>) -> (answer: Result<
    String,
    BootstrapError,
>)
    ensures
        is_answer(answer, command_answer(output)),
{
    match output {
        Err(why) => Err(BootstrapError::SshCommand(why)),
        Ok(o) => if !o.success {
            Err(BootstrapError::SshCommand(trim(lossy_text(o.stderr.as_slice()).as_str())))
        } else {
            Ok(trim(lossy_text(o.stdout.as_slice()).as_str()))
        },
    }
}

/// The command that prints the working directory on the remote host.
pub fn working_directory_command() -> (command: &'static str)
    ensures
        command@ == "sh -lc 'pwd'"@,
{
    "sh -lc 'pwd'"
}

/// The working directory that the remote host printed, or why there is none.
pub open spec fn directory_answer(output: Result<CommandOutput, String>) -> Result<
    Seq<char>,
    Seq<char>,
> {
    match command_answer(output) {
        Ok(text) => if text.len() == 0 {
            Err("remote working directory is empty"@)
        } else {
            Ok(text)
        },
        Err(why) => Err(why),
    }
}

/// Reads the working directory that the remote host printed.
pub fn resolve_remote_working_directory(output: Result<CommandOutput, String>) -> (answer: Result<
    String,
    BootstrapError,
>)
    ensures
        is_answer(answer, directory_answer(output)),
{
    match run_remote_command(output) {
        Ok(text) => if text.as_str().is_empty() {
            Err(BootstrapError::SshCommand("remote working directory is empty".to_owned()))
        } else {
            Ok(text)
        },
        Err(e) => Err(e),
    }
}

/// Another name of `run_remote_command`.
#[allow(non_snake_case)]
pub fn runRemoteCommand(output: Result<CommandOutput, String>) -> (answer: Result<
    String,
    BootstrapError,
>)
    ensures
        is_answer(answer, command_answer(output)),
{
    run_remote_command(output)
}

/// Another name of `resolve_remote_working_directory`.
#[allow(non_snake_case)]
pub fn resolveRemoteWorkingDirectory(output: Result<CommandOutput, String>) -> (answer: Result<
    String,
    BootstrapError,
>)
    ensures
        is_answer(answer, directory_answer(output)),
{
    resolve_remote_working_directory(output)
}

/// Whether `input` is a host and a port: the port behind the last colon, or an address in square
/// brackets before the first `]:`.
pub open spec fn is_host_port(input: Seq<char>) -> bool {
    if input.len() > 0 && input[0] == '[' {
        match first_match(input.skip(1), seq![']', ':'], 0) {
            Some(at) => at > 0 && port_number(input.skip(1).skip(at + 2)) is Some,
            None => false,
        }
    } else {
        match last_char(input, ':', input.len() as int) {
            Some(at) => at > 0 && port_number(input.skip(at + 1)) is Some,
            None => false,
        }
    }
}

/// Whether `input` is a host and a port.
pub fn is_valid_host_port(input: &str) -> (yes: bool)
    ensures
        yes == is_host_port(input@),
{
    let cs = chars_of(input);
    let n = cs.len();
    if n > 0 && cs[0] == '[' {
        let mut rest: Vec<char> = Vec::new();
        let mut i: usize = 1;
        while i < n
            invariant
                1 <= i <= n == cs@.len(),
                rest@ == cs@.subrange(1, i as int),
            decreases n - i,
        {
            rest.push(cs[i]);
            assert(cs@.subrange(1, i + 1) =~= cs@.subrange(1, i as int).push(cs@[i as int]));
            i += 1;
        }
        assert(rest@ =~= cs@.skip(1));
        match find_pair(&rest, ']', ':', 0) {
            Some(at) => {
                assert(rest@.skip(at + 2) =~= rest@.subrange(at + 2, rest@.len() as int));
                at > 0 && parse_u16(&rest, at + 2, rest.len()).is_some()
            },
            None => false,
        }
    } else {
        match rfind_char(&cs, ':') {
            Some(at) => {
                assert(cs@.skip(at + 1) =~= cs@.subrange(at + 1, n as int));
                at > 0 && parse_u16(&cs, at + 1, n).is_some()
            },
            None => false,
        }
    }
}

/// What is wrong with what a server told, if anything is.
pub open spec fn payload_error(payload: PayloadView) -> Option<Seq<char>> {
    if payload.auth_token.len() == 0 {
        Some("auth_token is empty"@)
    } else if payload.auth_token_expires_in_seconds == 0 {
        Some("auth_token_expires_in_seconds must be > 0"@)
    } else if !is_host_port(payload.quic_addr) {
        Some("quic_addr is not host:port"@)
    } else if !has_prefix(payload.cert_fingerprint, "sha256:"@) {
        Some("cert_fingerprint must start with sha256:"@)
    } else if !is_fingerprint(payload.cert_fingerprint) {
        Some("cert_fingerprint hex is invalid"@)
    } else {
        None
    }
}

/// Whether an outcome is this complaint, or success where there is none.
pub open spec fn is_payload_outcome(
    outcome: Result<(), BootstrapError>,
    expected: Option<Seq<char>>,
) -> bool {
    match (outcome, expected) {
        (Ok(()), None) => true,
        (Err(BootstrapError::InvalidPayload(m)), Some(want)) => m@ == want,
        _ => false,
    }
}

/// Checks what a server told of a session.
pub fn validate_bootstrap_payload(payload: &BootstrapPayload) -> (outcome: Result<
    (),
    BootstrapError,
>)
    ensures
        is_payload_outcome(outcome, payload_error(payload@)),
{
    if payload.auth_token.as_str().is_empty() {
        return Err(BootstrapError::InvalidPayload("auth_token is empty".to_owned()));
    }
    if payload.auth_token_expires_in_seconds == 0 {
        return Err(
            BootstrapError::InvalidPayload("auth_token_expires_in_seconds must be > 0".to_owned()),
        );
    }
    if !is_valid_host_port(payload.quic_addr.as_str()) {
        return Err(BootstrapError::InvalidPayload("quic_addr is not host:port".to_owned()));
    }
    let cs = chars_of(payload.cert_fingerprint.as_str());
    if !starts_with(&cs, "sha256:") {
        return Err(
            BootstrapError::InvalidPayload("cert_fingerprint must start with sha256:".to_owned()),
        );
    }
    proof {
        reveal_strlit("sha256:");
        assert("sha256:"@.len() == 7);
    }
    if cs.len() != 71 || !all_hex(&cs, 7) {
        return Err(BootstrapError::InvalidPayload("cert_fingerprint hex is invalid".to_owned()));
    }
    Ok(())
}

/// Whether all characters from a position on are hexadecimal digits.
fn all_hex(cs: &Vec<char>, from: usize) -> (yes: bool)
    requires
        from <= cs@.len(),
    ensures
        yes == (forall|i: int| from <= i < cs@.len() ==> is_hex_digit(#[trigger] cs@[i])),
{
    let mut i: usize = from;
    while i < cs.len()
        invariant
            from <= i <= cs@.len(),
            forall|k: int| from <= k < i ==> is_hex_digit(#[trigger] cs@[k]),
        decreases cs@.len() - i,
    {
        let c = cs[i];
        if !(('0' <= c && c <= '9') || ('a' <= c && c <= 'f') || ('A' <= c && c <= 'F')) {
            assert(!is_hex_digit(cs@[i as int]));
            return false;
        }
        i += 1;
    }
    true
}

/// The keys of what a server tells of a session.
pub open spec fn payload_keys() -> Seq<Seq<char>> {
    seq![
        "session_id"@,
        "auth_token"@,
        "auth_token_expires_in_seconds"@,
        "quic_addr"@,
        "cert_fingerprint"@,
    ]
}

/// The session that bytes tell of, or what is wrong with them.
pub open spec fn payload_of(bytes: Seq<u8>) -> Result<PayloadView, Seq<char>> {
    match record_of(bytes, payload_keys()) {
        Err(why) => Err(why),
        Ok(r) => match id_field_of(r[0], "session_id"@) {
            Err(why) => Err(why),
            Ok(session_id) => match text_field_of(r[1], "auth_token"@) {
                Err(why) => Err(why),
                Ok(auth_token) => match number_field_of(r[2], "auth_token_expires_in_seconds"@) {
                    Err(why) => Err(why),
                    Ok(auth_token_expires_in_seconds) => match text_field_of(r[3], "quic_addr"@) {
                        Err(why) => Err(why),
                        Ok(quic_addr) => match text_field_of(r[4], "cert_fingerprint"@) {
                            Err(why) => Err(why),
                            Ok(cert_fingerprint) => Ok(
                                PayloadView {
                                    session_id,
                                    auth_token,
                                    auth_token_expires_in_seconds,
                                    quic_addr,
                                    cert_fingerprint,
                                },
                            ),
                        },
                    },
                },
            },
        },
    }
}

/// Whether members tell of this session.
pub open spec fn told_by(
    members: Seq<(Seq<char>, serde_json::Value)>,
    payload: PayloadView,
) -> bool {
    &&& member_text(members, "session_id"@) == Some(uuid_text(payload.session_id.value))
    &&& member_text(members, "auth_token"@) == Some(payload.auth_token)
    &&& member_number(members, "auth_token_expires_in_seconds"@) == Some(
        payload.auth_token_expires_in_seconds,
    )
    &&& member_text(members, "quic_addr"@) == Some(payload.quic_addr)
    &&& member_text(members, "cert_fingerprint"@) == Some(payload.cert_fingerprint)
}

/// Whether a document tells of this session.
pub open spec fn tells(value: serde_json::Value, payload: PayloadView) -> bool {
    &&& json_str(value, "session_id"@) == Some(uuid_text(payload.session_id.value))
    &&& json_str(value, "auth_token"@) == Some(payload.auth_token)
    &&& json_u64(value, "auth_token_expires_in_seconds"@) == Some(
        payload.auth_token_expires_in_seconds,
    )
    &&& json_str(value, "quic_addr"@) == Some(payload.quic_addr)
    &&& json_str(value, "cert_fingerprint"@) == Some(payload.cert_fingerprint)
}

/// Whether an outcome is that this was told.
pub open spec fn is_told(
    outcome: Result<BootstrapPayload, BootstrapError>,
    payload: PayloadView,
) -> bool {
    outcome matches Ok(told) && told@ == payload
}

/// Whether this is what a document tells, checked, or what is wrong with it.
pub open spec fn is_checked_payload(
    outcome: Result<BootstrapPayload, BootstrapError>,
    read: Result<PayloadView, Seq<char>>,
) -> bool {
    match read {
        Err(why) => outcome matches Err(BootstrapError::InvalidJson(m)) && m@ == why,
        Ok(view) => match outcome {
            Ok(payload) => payload@ == view && payload_error(view) is None,
            Err(e) => e matches BootstrapError::InvalidPayload(m) && payload_error(view) == Some(
                m@,
            ),
        },
    }
}

/// Reads the session that bytes tell of. A session that was written is read back.
fn read_payload(bytes: &[u8]) -> (read: Result<BootstrapPayload, String>)
    ensures
        match read {
            Ok(payload) => payload_of(bytes@) == Ok::<PayloadView, Seq<char>>(payload@),
            Err(why) => payload_of(bytes@) == Err::<PayloadView, Seq<char>>(why@),
        },
        forall|layout: Layout, members: Seq<(Seq<char>, serde_json::Value)>, payload: PayloadView|
            #![trigger is_text_of(bytes@, layout, members), told_by(members, payload)]
            is_text_of(bytes@, layout, members) && told_by(members, payload) ==> read is Ok
                && read->Ok_0@ == payload,
{
    let mut keys: Vec<&'static str> = Vec::new();
    keys.push("session_id");
    keys.push("auth_token");
    keys.push("auth_token_expires_in_seconds");
    keys.push("quic_addr");
    keys.push("cert_fingerprint");
    assert(keys_of(keys@) =~= payload_keys());
    let raws = match read_record(bytes, &keys) {
        Ok(raws) => raws,
        Err(why) => {
            return Err(why);
        },
    };
    let ghost r = raw_fields(raws@);
    assert(r[0] == raw_field(raws@[0]) && r[1] == raw_field(raws@[1]) && r[2] == raw_field(
        raws@[2],
    ) && r[3] == raw_field(raws@[3]) && r[4] == raw_field(raws@[4]));
    let session_id = match id_field(&raws[0], "session_id") {
        Ok(id) => id,
        Err(why) => {
            return Err(why);
        },
    };
    let auth_token = match text_field(&raws[1], "auth_token") {
        Ok(text) => text,
        Err(why) => {
            return Err(why);
        },
    };
    let auth_token_expires_in_seconds = match number_field(
        &raws[2],
        "auth_token_expires_in_seconds",
    ) {
        Ok(n) => n,
        Err(why) => {
            return Err(why);
        },
    };
    let quic_addr = match text_field(&raws[3], "quic_addr") {
        Ok(text) => text,
        Err(why) => {
            return Err(why);
        },
    };
    let cert_fingerprint = match text_field(&raws[4], "cert_fingerprint") {
        Ok(text) => text,
        Err(why) => {
            return Err(why);
        },
    };
    Ok(
        BootstrapPayload {
            session_id,
            auth_token,
            auth_token_expires_in_seconds,
            quic_addr,
            cert_fingerprint,
        },
    )
}

/// Whether a text is the line that a server prints for this session.
pub open spec fn is_told_in(text: Seq<char>, payload: PayloadView) -> bool {
    is_line_of(
        text,
        bootstrap_fields(
            payload.session_id,
            payload.auth_token,
            payload.auth_token_expires_in_seconds,
            payload.quic_addr,
            payload.cert_fingerprint,
        ),
    )
}

/// The line for a session is the text of members that tell of it.
proof fn lemma_told_members(text: Seq<char>, payload: PayloadView) -> (members: Seq<
    (Seq<char>, serde_json::Value),
>)
    requires
        is_told_in(text, payload),
    ensures
        is_text_of(encode_utf8(text), compact(), members),
        told_by(members, payload),
{
    let fields = bootstrap_fields(
        payload.session_id,
        payload.auth_token,
        payload.auth_token_expires_in_seconds,
        payload.quic_addr,
        payload.cert_fingerprint,
    );
    let members = choose|members: Seq<(Seq<char>, serde_json::Value)>|
        hold_fields(members, fields) && encode_utf8(text) == #[trigger] object_bytes(
            compact(),
            members,
        );
    lemma_bootstrap_keys(fields);
    lemma_simple_members(members, fields);
    assert(members[0].0 == fields[0].0);
    assert(members[1].0 == fields[1].0);
    assert(members[2].0 == fields[2].0);
    assert(members[3].0 == fields[3].0);
    assert(members[4].0 == fields[4].0);
    lemma_find_member(members, 0);
    lemma_find_member(members, 1);
    lemma_find_member(members, 2);
    lemma_find_member(members, 3);
    lemma_find_member(members, 4);
    members
}

/// The text of a flat document that tells of a session is that of members that tell of it.
proof fn lemma_spelled_members(
    bytes: Seq<u8>,
    sent: serde_json::Value,
    payload: PayloadView,
) -> (members: Seq<(Seq<char>, serde_json::Value)>)
    requires
        spells(bytes, sent),
        tells(sent, payload),
    ensures
        is_text_of(bytes, compact(), members),
        told_by(members, payload),
{
    let members = choose|members: Seq<(Seq<char>, serde_json::Value)>|
        #![trigger object_bytes(compact(), members)]
        members.len() > 0 && lists_members(sent, members) && bytes == object_bytes(
            compact(),
            members,
        );
    lemma_find_listed(sent, members, "session_id"@);
    lemma_find_listed(sent, members, "auth_token"@);
    lemma_find_listed(sent, members, "auth_token_expires_in_seconds"@);
    lemma_find_listed(sent, members, "quic_addr"@);
    lemma_find_listed(sent, members, "cert_fingerprint"@);
    members
}

/// Reads what a server told of a session, and checks it. What is written by a server that tells of
/// a session without fault is always read.
pub fn parse_bootstrap_payload(raw: &str) -> (outcome: Result<BootstrapPayload, BootstrapError>)
    ensures
        forall|payload: PayloadView| #[trigger]
            is_told_in(raw@, payload) && payload_error(payload) is None ==> is_told(
                outcome,
                payload,
            ),
        forall|sent: serde_json::Value, payload: PayloadView|
            #![trigger spells(encode_utf8(raw@), sent), tells(sent, payload)]
            spells(encode_utf8(raw@), sent) && tells(sent, payload) && payload_error(
                payload,
            ) is None ==> is_told(outcome, payload),
        is_checked_payload(outcome, payload_of(encode_utf8(raw@))),
{
    let bytes = raw.as_bytes();
    let read = read_payload(bytes);
    assert forall|payload: PayloadView| #[trigger] is_told_in(raw@, payload) implies read is Ok
        && read->Ok_0@ == payload by {
        let members = lemma_told_members(raw@, payload);
        assert(is_text_of(bytes@, compact(), members));
    }
    assert forall|sent: serde_json::Value, payload: PayloadView|
        #![trigger spells(encode_utf8(raw@), sent), tells(sent, payload)]
        spells(encode_utf8(raw@), sent) && tells(sent, payload) implies read is Ok && read->Ok_0@
        == payload by {
        let members = lemma_spelled_members(encode_utf8(raw@), sent, payload);
        assert(is_text_of(bytes@, compact(), members));
    }
    match read {
        Ok(payload) => match validate_bootstrap_payload(&payload) {
            Ok(()) => Ok(payload),
            Err(e) => Err(e),
        },
        Err(why) => Err(BootstrapError::InvalidJson(why)),
    }
}

/// Reads what a server told of a session from the output of the command that asked it.
pub fn run_ssh_bootstrap(output: Result<CommandOutput, String>) -> (outcome: Result<
    BootstrapPayload,
    BootstrapError,
>)
    ensures
        forall|payload: PayloadView, text: Seq<char>|
            #![trigger is_told_in(text, payload)]
            command_answer(output) == Ok::<Seq<char>, Seq<char>>(text) && is_told_in(text, payload)
                && payload_error(payload) is None ==> is_told(outcome, payload),
        forall|sent: serde_json::Value, payload: PayloadView, text: Seq<char>|
            #![trigger spells(encode_utf8(text), sent), tells(sent, payload)]
            command_answer(output) == Ok::<Seq<char>, Seq<char>>(text) && spells(
                encode_utf8(text),
                sent,
            ) && tells(sent, payload) && payload_error(payload) is None ==> is_told(
                outcome,
                payload,
            ),
        match command_answer(output) {
            Err(why) => outcome matches Err(BootstrapError::SshCommand(m)) && m@ == why,
            Ok(text) => is_checked_payload(outcome, payload_of(encode_utf8(text))),
        },
{
    match run_remote_command(output) {
        Ok(text) => parse_bootstrap_payload(text.as_str()),
        Err(e) => Err(e),
    }
}

/// What a server tells is accepted exactly if it holds a token that lasts, an address with a port
/// and a fingerprint; what is wrong is looked for in this order.
pub proof fn law_payloads_are_checked(payload: PayloadView)
    ensures
        ({
            let token = payload.auth_token.len() > 0;
            let lasts = payload.auth_token_expires_in_seconds > 0;
            let address = is_host_port(payload.quic_addr);
            let print = is_fingerprint(payload.cert_fingerprint);
            &&& payload_error(payload) is None <==> token && lasts && address && print
            &&& !token ==> payload_error(payload) == Some("auth_token is empty"@)
            &&& token && !lasts ==> payload_error(payload) == Some(
                "auth_token_expires_in_seconds must be > 0"@,
            )
            &&& token && lasts && !address ==> payload_error(payload) == Some(
                "quic_addr is not host:port"@,
            )
            &&& token && lasts && address && !print ==> payload_error(payload) == Some(
                "cert_fingerprint must start with sha256:"@,
            ) || payload_error(payload) == Some("cert_fingerprint hex is invalid"@)
        }),
{
}

/// An address is a host that is not empty, a colon and a port; the colon is the last one, or behind
/// a bracket for a host that stands in brackets.
pub proof fn law_what_is_an_address(host: Seq<char>, port: Seq<char>)
    requires
        forall|i: int| 0 <= i < port.len() ==> #[trigger] port[i] != ':',
    ensures
        host.len() == 0 || host[0] != '[' ==> (is_host_port(host.push(':') + port) <==> host.len()
            > 0 && port_number(port) is Some),
        port.len() > 0 && port[0] != '[' ==> !is_host_port(port),
        (forall|i: int| 0 <= i < host.len() ==> #[trigger] host[i] != ']') ==> (is_host_port(
            seq!['['] + host + seq![']', ':'] + port,
        ) <==> host.len() > 0 && port_number(port) is Some),
{
    let text = host.push(':') + port;
    law_last_char_is_last(text, ':');
    law_last_char_is_last(port, ':');
    assert(text[host.len() as int] == ':');
    assert(last_char(text, ':', text.len() as int) == Some(host.len() as int));
    assert(text.skip(host.len() as int + 1) =~= port);
    if host.len() > 0 {
        assert(text[0] == host[0]);
    } else {
        assert(text[0] == ':');
    }
    if forall|i: int| 0 <= i < host.len() ==> #[trigger] host[i] != ']' {
        let bracketed = seq!['['] + host + seq![']', ':'] + port;
        let inside = bracketed.skip(1);
        let pattern = seq![']', ':'];
        assert(bracketed[0] == '[');
        assert(inside =~= host + pattern + port);
        law_first_match_is_first(inside, pattern, 0);
        let at = host.len() as int;
        assert(inside.subrange(at, at + pattern.len()) =~= pattern);
        assert forall|i: int| 0 <= i < at implies #[trigger] inside.subrange(i, i + pattern.len())
            != pattern by {
            assert(inside.subrange(i, i + pattern.len())[0] == host[i]);
            assert(pattern[0] == ']');
        }
        let found = first_match(inside, pattern, 0);
        assert(found is Some);
        assert(found->0 <= at) by {
            if found->0 > at {
                assert(inside.subrange(at, at + pattern.len()) != pattern);
            }
        }
        assert(found->0 >= at) by {
            if found->0 < at {
                assert(inside.subrange(found->0, found->0 + pattern.len()) != pattern);
            }
        }
        assert(inside.skip(at + 2) =~= port);
    }
}

/// What a remote command answers is what it printed if it succeeded, and its complaint if not, both
/// without white space around them; and a directory that is empty is none.
pub proof fn law_answers_of_remote_commands(output: CommandOutput, why: String)
    ensures
        output.success ==> command_answer(Ok(output)) == Ok::<Seq<char>, Seq<char>>(
            trimmed(utf8_lossy(output.stdout@)),
        ),
        !output.success ==> command_answer(Ok(output)) == Err::<Seq<char>, Seq<char>>(
            trimmed(utf8_lossy(output.stderr@)),
        ),
        command_answer(Err(why)) == Err::<Seq<char>, Seq<char>>(why@),
        directory_answer(Ok(output)) is Ok <==> output.success && trimmed(
            utf8_lossy(output.stdout@),
        ).len() > 0,
        directory_answer(Ok(output)) is Ok ==> directory_answer(Ok(output)) == command_answer(
            Ok(output),
        ),
        !output.success ==> directory_answer(Ok(output)) == command_answer(Ok(output)),
        output.success && directory_answer(Ok(output)) is Err ==> directory_answer(Ok(output))
            == Err::<Seq<char>, Seq<char>>("remote working directory is empty"@),
        directory_answer(Err(why)) == Err::<Seq<char>, Seq<char>>(why@),
{
}

/// An error that carries a message says it whole, behind what it is about.
pub proof fn law_errors_say_what_happened(m: String)
    ensures
        BootstrapError::SshCommand(m).text() == "ssh command failed: "@ + m@,
        BootstrapError::InvalidJson(m).text() == "invalid bootstrap json: "@ + m@,
        BootstrapError::InvalidPayload(m).text() == "invalid bootstrap payload: "@ + m@,
{
}

/// What a server tells of a session is read from the fields of its document, each thing from the
/// field of its name, and nothing may be missing.
pub proof fn law_payloads_are_read(bytes: Seq<u8>, r: Seq<Option<Seq<u8>>>)
    requires
        record_of(bytes, payload_keys()) == Ok::<Seq<Option<Seq<u8>>>, Seq<char>>(r),
    ensures
        payload_keys() == seq![
            "session_id"@,
            "auth_token"@,
            "auth_token_expires_in_seconds"@,
            "quic_addr"@,
            "cert_fingerprint"@,
        ],
        payload_of(bytes) matches Ok(payload) ==> {
            &&& id_field_of(r[0], "session_id"@) == Ok::<Uuid, Seq<char>>(payload.session_id)
            &&& text_field_of(r[1], "auth_token"@) == Ok::<Seq<char>, Seq<char>>(payload.auth_token)
            &&& number_field_of(r[2], "auth_token_expires_in_seconds"@) == Ok::<u64, Seq<char>>(
                payload.auth_token_expires_in_seconds,
            )
            &&& text_field_of(r[3], "quic_addr"@) == Ok::<Seq<char>, Seq<char>>(payload.quic_addr)
            &&& text_field_of(r[4], "cert_fingerprint"@) == Ok::<Seq<char>, Seq<char>>(
                payload.cert_fingerprint,
            )
        },
        payload_of(bytes) is Ok <==> {
            &&& id_field_of(r[0], "session_id"@) is Ok
            &&& text_field_of(r[1], "auth_token"@) is Ok
            &&& number_field_of(r[2], "auth_token_expires_in_seconds"@) is Ok
            &&& text_field_of(r[3], "quic_addr"@) is Ok
            &&& text_field_of(r[4], "cert_fingerprint"@) is Ok
        },
{
}

} // verus!
