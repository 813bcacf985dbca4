//! The decisions of the C interface: return codes, and what is written where.

use crate::client::session::ClientMessage;
use crate::ids::Uuid;
#[allow(unused_imports)]
use crate::ids::uuid_parse;
use crate::protocol::framing::payload_length;
#[allow(unused_imports)]
use crate::protocol::framing::prefix_value;
#[allow(unused_imports)]
use crate::text::{decimal, trimmed};
use crate::text::{append_decimal, concat, trim};
use crate::transport::quic::MAX_CONTROL_FRAME;
use vstd::prelude::*;
#[allow(unused_imports)]
use vstd::utf8::encode_utf8;

verus! {

/// The call succeeded.
pub const NEOSH_CLIENT_OK: i32 = 0;

/// An argument is not valid.
pub const NEOSH_CLIENT_ERR_INVALID_ARG: i32 = -1;

/// The buffer for the result is too small.
pub const NEOSH_CLIENT_ERR_BUFFER_TOO_SMALL: i32 = -2;

/// Nothing has arrived yet, or a stream is not open.
pub const NEOSH_CLIENT_ERR_NOT_READY: i32 = -3;

/// The call failed.
pub const NEOSH_CLIENT_ERR_INTERNAL: i32 = -4;

/// How long a connection may be idle, in seconds.
pub const DEFAULT_QUIC_IDLE_TIMEOUT_SECS: u64 = 60;

/// What a call returns: a code, and the error to keep for later, if it is one.
#[derive(Debug)]
pub struct Outcome {
    pub code: i32,
    pub error: Option<String>,
}

/// Whether a call fails with this code and this error.
pub open spec fn fails(outcome: Outcome, code: i32, error: Seq<char>) -> bool {
    &&& outcome.code == code
    &&& outcome.error matches Some(e) && e@ == error
}

/// A call that fails with this code and this error.
pub fn failure(code: i32, error: &str) -> (outcome: Outcome)
    ensures
        fails(outcome, code, error@),
{
    Outcome { code, error: Some(error.to_owned()) }
}

/// The bytes of an error message as a C string: without zero bytes inside.
pub open spec fn c_bytes(bytes: Seq<u8>) -> Seq<u8> {
    bytes.map_values(
        |b: u8|
            if b == 0 {
                0x3fu8
            } else {
                b
            },
    )
}

/// The bytes of an error message as a C string, each zero byte replaced by a question mark.
pub fn cstring_lossy(input: &str) -> (bytes: Vec<u8>)
    ensures
        bytes@ == c_bytes(encode_utf8(input@)),
        forall|i: int| 0 <= i < bytes@.len() ==> #[trigger] bytes@[i] != 0,
{
    let source = input.as_bytes();
    let mut bytes: Vec<u8> = Vec::new();
    let mut i: usize = 0;
    while i < source.len()
        invariant
            i <= source@.len(),
            source@ == encode_utf8(input@),
            bytes@.len() == i,
            forall|k: int|
                0 <= k < i ==> #[trigger] bytes@[k] == if source@[k] == 0 {
                    0x3fu8
                } else {
                    source@[k]
                },
        decreases source@.len() - i,
    {
        if source[i] == 0 {
            bytes.push(0x3f);
        } else {
            bytes.push(source[i]);
        }
        i += 1;
    }
    assert(bytes@ =~= c_bytes(encode_utf8(input@)));
    bytes
}

/// A text argument: a null pointer, bytes that are no text, or a text.
#[derive(Debug)]
pub enum TextArgument {
    Null,
    NotUtf8,
    Text(String),
}

/// The text of an argument without white space around it, or what is wrong with it.
pub open spec fn argument_text(arg: TextArgument, name: Seq<char>) -> Result<Seq<char>, Seq<char>> {
    match arg {
        TextArgument::Null => Err(name + " is null"@),
        TextArgument::NotUtf8 => Err(name + " is not valid UTF-8"@),
        TextArgument::Text(s) => if trimmed(s@).len() == 0 {
            Err(name + " is empty"@)
        } else {
            Ok(trimmed(s@))
        },
    }
}

/// Reads a text argument.
pub fn cstr_to_string(arg: TextArgument, name: &str) -> (text: Result<String, String>)
    ensures
        match text {
            Ok(t) => argument_text(arg, name@) == Ok::<Seq<char>, Seq<char>>(t@),
            Err(e) => argument_text(arg, name@) == Err::<Seq<char>, Seq<char>>(e@),
        },
{
    match arg {
        TextArgument::Null => Err(concat(name, " is null")),
        TextArgument::NotUtf8 => Err(concat(name, " is not valid UTF-8")),
        TextArgument::Text(s) => {
            let t = trim(s.as_str());
            if t.as_str().is_empty() {
                Err(concat(name, " is empty"))
            } else {
                Ok(t)
            }
        },
    }
}

/// How many payload bytes follow the length of a control frame, if not too many do.
pub fn control_length(prefix: &[u8; 4]) -> (n: Result<usize, String>)
    ensures
        match n {
            Ok(len) => len == prefix_value(prefix@) && len <= MAX_CONTROL_FRAME,
            Err(e) => prefix_value(prefix@) > MAX_CONTROL_FRAME && e@ == "control frame too large: "@
                + decimal(prefix_value(prefix@)),
        },
{
    let n: u32 = payload_length(prefix.as_slice());
    if n > 65536 {
        let mut e = "control frame too large: ".to_owned();
        append_decimal(&mut e, n as u64);
        Err(e)
    } else {
        Ok(n as usize)
    }
}

/// How many bytes of a message are copied to the caller, and what the call returns.
pub open spec fn copies(
    outcome: Outcome,
    copied: nat,
    len: nat,
    buffer_is_null: bool,
    capacity: nat,
) -> bool {
    if buffer_is_null && len > 0 {
        fails(outcome, NEOSH_CLIENT_ERR_INVALID_ARG, "out_buf is null"@) && copied == 0
    } else if len > capacity {
        &&& fails(
            outcome,
            NEOSH_CLIENT_ERR_BUFFER_TOO_SMALL,
            "buffer too small, need "@ + decimal(len),
        )
        &&& copied == 0
    } else {
        outcome.code == NEOSH_CLIENT_OK && outcome.error is None && copied == len
    }
}

/// Decides how many bytes of a message to copy to the caller: all of them, or none.
pub fn deliver(len: usize, buffer_is_null: bool, capacity: usize) -> (delivery: (Outcome, usize))
    ensures
        copies(delivery.0, delivery.1 as nat, len as nat, buffer_is_null, capacity as nat),
        delivery.1 <= capacity,
        delivery.1 > 0 ==> !buffer_is_null,
{
    if buffer_is_null && len > 0 {
        return (failure(NEOSH_CLIENT_ERR_INVALID_ARG, "out_buf is null"), 0);
    }
    if len > capacity {
        let mut e = "buffer too small, need ".to_owned();
        append_decimal(&mut e, len as u64);
        return (
            Outcome { code: NEOSH_CLIENT_ERR_BUFFER_TOO_SMALL, error: Some(e) },
            0,
        );
    }
    (Outcome { code: NEOSH_CLIENT_OK, error: None }, len)
}

/// What is wrong with the arguments of a call that sends input, if anything is.
pub fn check_send_stdin(
    written_len_is_null: bool,
    data_is_null: bool,
    len: usize,
    stream_is_open: bool,
) -> (refused: Option<Outcome>)
    ensures
        if written_len_is_null {
            refused matches Some(o) && fails(
                o,
                NEOSH_CLIENT_ERR_INVALID_ARG,
                "written_len is null"@,
            )
        } else if data_is_null && len > 0 {
            refused matches Some(o) && fails(o, NEOSH_CLIENT_ERR_INVALID_ARG, "data is null"@)
        } else if !stream_is_open {
            refused matches Some(o) && fails(
                o,
                NEOSH_CLIENT_ERR_NOT_READY,
                "stdin stream not ready, call neosh_client_open_data_streams first"@,
            )
        } else {
            refused is None
        },
{
    if written_len_is_null {
        Some(failure(NEOSH_CLIENT_ERR_INVALID_ARG, "written_len is null"))
    } else if data_is_null && len > 0 {
        Some(failure(NEOSH_CLIENT_ERR_INVALID_ARG, "data is null"))
    } else if !stream_is_open {
        Some(
            failure(
                NEOSH_CLIENT_ERR_NOT_READY,
                "stdin stream not ready, call neosh_client_open_data_streams first",
            ),
        )
    } else {
        None
    }
}

/// What is wrong with the arguments of a call that receives output, if anything is.
pub fn check_recv_stdout(
    out_len_or_eof_is_null: bool,
    capacity: usize,
    buffer_is_null: bool,
    stream_is_open: bool,
) -> (refused: Option<Outcome>)
    ensures
        if out_len_or_eof_is_null {
            refused matches Some(o) && fails(
                o,
                NEOSH_CLIENT_ERR_INVALID_ARG,
                "out_len or eof is null"@,
            )
        } else if capacity == 0 {
            refused matches Some(o) && fails(o, NEOSH_CLIENT_ERR_INVALID_ARG, "out_cap is zero"@)
        } else if buffer_is_null {
            refused matches Some(o) && fails(o, NEOSH_CLIENT_ERR_INVALID_ARG, "out_buf is null"@)
        } else if !stream_is_open {
            refused matches Some(o) && fails(
                o,
                NEOSH_CLIENT_ERR_NOT_READY,
                "stdout stream not ready, call neosh_client_open_data_streams first"@,
            )
        } else {
            refused is None
        },
{
    if out_len_or_eof_is_null {
        Some(failure(NEOSH_CLIENT_ERR_INVALID_ARG, "out_len or eof is null"))
    } else if capacity == 0 {
        Some(failure(NEOSH_CLIENT_ERR_INVALID_ARG, "out_cap is zero"))
    } else if buffer_is_null {
        Some(failure(NEOSH_CLIENT_ERR_INVALID_ARG, "out_buf is null"))
    } else if !stream_is_open {
        Some(
            failure(
                NEOSH_CLIENT_ERR_NOT_READY,
                "stdout stream not ready, call neosh_client_open_data_streams first",
            ),
        )
    } else {
        None
    }
}

/// What came of waiting for output.
#[derive(Debug)]
pub enum StdoutRead {
    Bytes(usize),
    End,
    Nothing,
    Failed(String),
}

/// What a call that receives output reports: the code and error, and unless it failed the number
/// of bytes and whether the output has ended.
#[derive(Debug)]
pub struct StdoutReport {
    pub outcome: Outcome,
    pub written: Option<(usize, i32)>,
}

/// Whether this reports what came of waiting for output.
pub open spec fn reports(report: StdoutReport, read: StdoutRead) -> bool {
    match read {
        StdoutRead::Bytes(n) => {
            &&& report.outcome.code == NEOSH_CLIENT_OK
            &&& report.outcome.error is None
            &&& report.written == Some((n, 0i32))
        },
        StdoutRead::End => {
            &&& report.outcome.code == NEOSH_CLIENT_OK
            &&& report.outcome.error is None
            &&& report.written == Some((0usize, 1i32))
        },
        StdoutRead::Nothing => {
            &&& report.outcome.code == NEOSH_CLIENT_ERR_NOT_READY
            &&& report.outcome.error is None
            &&& report.written == Some((0usize, 0i32))
        },
        StdoutRead::Failed(why) => {
            &&& fails(
                report.outcome,
                NEOSH_CLIENT_ERR_INTERNAL,
                "read stdout failed: "@ + why@,
            )
            &&& report.written is None
        },
    }
}

/// Reports what came of waiting for output.
pub fn report_stdout(read: StdoutRead) -> (report: StdoutReport)
    ensures
        reports(report, read),
{
    match read {
        StdoutRead::Bytes(n) => StdoutReport {
            outcome: Outcome { code: NEOSH_CLIENT_OK, error: None },
            written: Some((n, 0)),
        },
        StdoutRead::End => StdoutReport {
            outcome: Outcome { code: NEOSH_CLIENT_OK, error: None },
            written: Some((0, 1)),
        },
        StdoutRead::Nothing => StdoutReport {
            outcome: Outcome { code: NEOSH_CLIENT_ERR_NOT_READY, error: None },
            written: Some((0, 0)),
        },
        StdoutRead::Failed(why) => StdoutReport {
            outcome: Outcome {
                code: NEOSH_CLIENT_ERR_INTERNAL,
                error: Some(concat("read stdout failed: ", why.as_str())),
            },
            written: None,
        },
    }
}

/// The `AUTH` message for a token, or what is wrong with the token.
pub fn build_auth(auth_token: TextArgument, client_id: Uuid) -> (message: Result<
    ClientMessage,
    String,
>)
    ensures
        match argument_text(auth_token, "auth_token"@) {
            Ok(text) => {
                &&& message matches Ok(ClientMessage::Auth { token, client_id: id })
                &&& token@ == text
                &&& id == client_id
            },
            Err(e) => message matches Err(m) && m@ == e,
        },
{
    match cstr_to_string(auth_token, "auth_token") {
        Ok(token) => Ok(ClientMessage::Auth { token, client_id }),
        Err(e) => Err(e),
    }
}

/// The session that an argument names, or what is wrong with it.
pub open spec fn argument_uuid(arg: TextArgument, name: Seq<char>) -> Result<u128, Seq<char>> {
    match argument_text(arg, name) {
        Ok(text) => match uuid_parse(text) {
            Ok(id) => Ok(id),
            Err(why) => Err(name + " is not a valid UUID: "@ + why),
        },
        Err(e) => Err(e),
    }
}

/// Reads an identifier argument.
pub fn read_uuid_argument(arg: TextArgument, name: &str) -> (id: Result<Uuid, String>)
    ensures
        match id {
            Ok(u) => argument_uuid(arg, name@) == Ok::<u128, Seq<char>>(u.value),
            Err(e) => argument_uuid(arg, name@) == Err::<u128, Seq<char>>(e@),
        },
{
    match cstr_to_string(arg, name) {
        Ok(text) => match Uuid::parse_str(text.as_str()) {
            Ok(id) => Ok(id),
            Err(why) => {
                let prefix = concat(name, " is not a valid UUID: ");
                Err(concat(prefix.as_str(), why.as_str()))
            },
        },
        Err(e) => Err(e),
    }
}

/// The `RESUME` message for a session and a token, or what is wrong with them.
pub fn build_resume(session_id: TextArgument, resume_token: TextArgument, client_id: Uuid) -> (message:
    Result<ClientMessage, String>)
    ensures
        match argument_uuid(session_id, "session_id"@) {
            Err(e) => message matches Err(m) && m@ == e,
            Ok(id) => match argument_text(resume_token, "resume_token"@) {
                Err(e) => message matches Err(m) && m@ == e,
                Ok(text) => {
                    &&& message matches Ok(
                        ClientMessage::Resume { session_id: s, resume_token: t, client_id: c },
                    )
                    &&& s.value == id
                    &&& t@ == text
                    &&& c == client_id
                },
            },
        },
{
    let session = match read_uuid_argument(session_id, "session_id") {
        Ok(id) => id,
        Err(e) => {
            return Err(e);
        },
    };
    match cstr_to_string(resume_token, "resume_token") {
        Ok(token) => Ok(
            ClientMessage::Resume { session_id: session, resume_token: token, client_id },
        ),
        Err(e) => Err(e),
    }
}

/// The return codes of the C interface.
pub proof fn law_return_codes()
    ensures
        NEOSH_CLIENT_OK == 0,
        NEOSH_CLIENT_ERR_INVALID_ARG == -1,
        NEOSH_CLIENT_ERR_BUFFER_TOO_SMALL == -2,
        NEOSH_CLIENT_ERR_NOT_READY == -3,
        NEOSH_CLIENT_ERR_INTERNAL == -4,
{
}

/// An error message for C has no zero byte inside and is otherwise as it was, byte for byte.
pub proof fn law_c_strings_have_no_zero(bytes: Seq<u8>, i: int)
    requires
        0 <= i < bytes.len(),
    ensures
        c_bytes(bytes).len() == bytes.len(),
        c_bytes(bytes)[i] != 0,
        bytes[i] != 0 ==> c_bytes(bytes)[i] == bytes[i],
        bytes[i] == 0 ==> c_bytes(bytes)[i] == 0x3f,
{
}

/// An argument is taken without white space around it, and refused if there is none, if it is not
/// UTF-8, or if nothing is left of it.
pub proof fn law_arguments_are_trimmed(s: String, name: Seq<char>)
    ensures
        trimmed(s@).len() > 0 ==> argument_text(TextArgument::Text(s), name) == Ok::<
            Seq<char>,
            Seq<char>,
        >(trimmed(s@)),
        trimmed(s@).len() == 0 ==> argument_text(TextArgument::Text(s), name) == Err::<
            Seq<char>,
            Seq<char>,
        >(name + " is empty"@),
        argument_text(TextArgument::Null, name) == Err::<Seq<char>, Seq<char>>(name + " is null"@),
        argument_text(TextArgument::NotUtf8, name) == Err::<Seq<char>, Seq<char>>(
            name + " is not valid UTF-8"@,
        ),
        trimmed(s@).len() > 0 && uuid_parse(trimmed(s@)) is Ok ==> argument_uuid(
            TextArgument::Text(s),
            name,
        ) == uuid_parse(trimmed(s@)),
        argument_uuid(TextArgument::Text(s), name) is Ok ==> trimmed(s@).len() > 0 && uuid_parse(
            trimmed(s@),
        ) is Ok,
{
}

/// A message is copied to the caller whole or not at all: whole exactly if there is a buffer for it
/// and it fits. An empty message needs no buffer.
pub proof fn law_messages_are_copied_whole(
    outcome: Outcome,
    copied: nat,
    len: nat,
    buffer_is_null: bool,
    capacity: nat,
)
    requires
        copies(outcome, copied, len, buffer_is_null, capacity),
    ensures
        outcome.code == 0 <==> len <= capacity && (len == 0 || !buffer_is_null),
        outcome.code == 0 ==> copied == len && outcome.error is None,
        outcome.code != 0 ==> copied == 0 && outcome.error is Some,
        outcome.code == -1 <==> len > 0 && buffer_is_null,
        outcome.code == -2 <==> len > capacity && !buffer_is_null,
{
}

/// What came of waiting for output is told apart: some bytes, the end of the output, nothing yet, or
/// a failure.
pub proof fn law_output_is_reported(report: StdoutReport, read: StdoutRead)
    requires
        reports(report, read),
    ensures
        read matches StdoutRead::Bytes(n) ==> report.outcome.code == 0 && report.written == Some(
            (n, 0i32),
        ),
        read is End ==> report.outcome.code == 0 && report.written == Some((0usize, 1i32)),
        read is Nothing ==> report.outcome.code == -3 && report.written == Some((0usize, 0i32)),
        read is Failed ==> report.outcome.code == -4 && report.written is None
            && report.outcome.error is Some,
        read !is Failed ==> report.outcome.error is None,
{
}

} // verus!
