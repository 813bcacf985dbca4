//! Control messages as the client sends and reads them.

use crate::client::error::CliError;
use crate::json::{get_str, parse_json, write_json};
#[allow(unused_imports)]
use crate::json::{is_flat, json_bytes, json_parse, json_str, json_u64, reads_alike, spells, writes};
use crate::protocol::framing::{decode_frame, encode_frame, payload_length};
#[allow(unused_imports)]
use crate::protocol::framing::{
    frame, law_frame_round_trip, prefix_value, unframe, FramingError,
};
use crate::text::concat;
use crate::transport::quic::MAX_CONTROL_FRAME;
use vstd::prelude::*;

verus! {

/// Why a control message cannot be sent or read.
#[derive(Debug)]
pub enum ControlError {
    Protocol(String),
    Io(String),
    Json(String),
}

impl ControlError {
    /// What the error says.
    pub open spec fn text(self) -> Seq<char> {
        match self {
            ControlError::Protocol(m) => "protocol error: "@ + m@,
            ControlError::Io(m) => "io error: "@ + m@,
            ControlError::Json(m) => "json error: "@ + m@,
        }
    }

    /// What the error says.
    pub fn message(&self) -> (m: String)
        ensures
            m@ == self.text(),
    {
        match self {
            ControlError::Protocol(m) => concat("protocol error: ", m.as_str()),
            ControlError::Io(m) => concat("io error: ", m.as_str()),
            ControlError::Json(m) => concat("json error: ", m.as_str()),
        }
    }
}

/// Puts a message into a frame.
pub fn encode_control_json(value: &serde_json::Value) -> (out: Result<Vec<u8>, ControlError>)
    ensures
        out matches Ok(f) && f@ == frame(json_bytes(*value)),
        is_flat(*value) ==> spells(json_bytes(*value), *value),
{
    match write_json(value) {
        Ok(payload) => Ok(encode_frame(payload.as_slice())),
        Err(why) => Err(ControlError::Json(why)),
    }
}

/// Whether bytes are the frame of a message that is within the limit.
pub open spec fn carries(buf: Seq<u8>, sent: serde_json::Value, max_size: nat) -> bool {
    &&& buf == frame(json_bytes(sent))
    &&& json_bytes(sent).len() <= max_size
    &&& json_bytes(sent).len() < 0x1_0000_0000
}

/// Takes a message out of a frame. A flat message that was put into a frame always comes out as it
/// was, and any other that comes out has the texts and the numbers with which it was put in.
pub fn decode_control_json(frame: &[u8], max_size: usize) -> (value: Result<
    serde_json::Value,
    ControlError,
>)
    ensures
        match unframe(frame@, max_size as nat) {
            Err(e) => value matches Err(ControlError::Protocol(m)) && m@ == e.text(),
            Ok(payload) => match json_parse(payload) {
                Err(why) => value matches Err(ControlError::Json(m)) && m@ == why,
                Ok(v) => value matches Ok(got) && got == v,
            },
        },
        forall|sent: serde_json::Value|
            #![trigger json_bytes(sent)]
            carries(frame@, sent, max_size as nat) && is_flat(sent) ==> value is Ok && value->Ok_0
                == sent,
        forall|sent: serde_json::Value, key: Seq<char>|
            #![trigger json_bytes(sent), json_str(sent, key)]
            carries(frame@, sent, max_size as nat) && value is Ok ==> json_str(value->Ok_0, key)
                == json_str(sent, key),
        forall|sent: serde_json::Value, key: Seq<char>|
            #![trigger json_bytes(sent), json_u64(sent, key)]
            carries(frame@, sent, max_size as nat) && value is Ok ==> json_u64(value->Ok_0, key)
                == json_u64(sent, key),
{
    proof {
        assert forall|sent: serde_json::Value|
            #![trigger json_bytes(sent)]
            carries(frame@, sent, max_size as nat) implies unframe(frame@, max_size as nat) == Ok::<
            Seq<u8>,
            FramingError,
        >(json_bytes(sent)) && writes(json_bytes(sent), sent) by {
            law_frame_round_trip(json_bytes(sent), max_size as nat);
        }
    }
    let payload = match decode_frame(frame, max_size) {
        Ok(p) => p,
        Err(e) => {
            return Err(ControlError::Protocol(e.message()));
        },
    };
    match parse_json(payload) {
        Ok(v) => Ok(v),
        Err(why) => Err(ControlError::Json(why)),
    }
}

/// What the client makes of a frame, from its length and its payload as they were read: the message,
/// or its complaint.
pub open spec fn message_of(prefix: Seq<u8>, payload: Seq<u8>) -> Result<
    serde_json::Value,
    Seq<char>,
> {
    match unframe(prefix + payload, MAX_CONTROL_FRAME as nat) {
        Err(FramingError::TooLarge) => Err("control frame too large"@),
        Err(e) => Err(e.text()),
        Ok(bytes) => match json_parse(bytes) {
            Err(why) => Err("invalid json: "@ + why),
            Ok(value) => Ok(value),
        },
    }
}

/// Reads a message from the length and the payload of its frame. A flat message that was put into a
/// frame always comes out as it was, and any other that comes out has the texts and the numbers with
/// which it was put in.
pub fn read_message(prefix: &[u8; 4], payload: &[u8]) -> (read: Result<serde_json::Value, CliError>)
    ensures
        match message_of(prefix@, payload@) {
            Ok(value) => read is Ok && read->Ok_0 == value,
            Err(why) => read is Err && read->Err_0.is_protocol(why),
        },
        forall|sent: serde_json::Value|
            #![trigger json_bytes(sent)]
            carries(prefix@ + payload@, sent, MAX_CONTROL_FRAME as nat) && is_flat(sent)
                ==> read is Ok && read->Ok_0 == sent,
        forall|sent: serde_json::Value|
            #![trigger json_bytes(sent)]
            carries(prefix@ + payload@, sent, MAX_CONTROL_FRAME as nat) && read is Ok
                ==> reads_alike(sent, read->Ok_0),
{
    let mut whole: Vec<u8> = Vec::new();
    whole.extend_from_slice(prefix.as_slice());
    whole.extend_from_slice(payload);
    assert(whole@ =~= prefix@ + payload@);
    if payload_length(prefix.as_slice()) as u64 > MAX_CONTROL_FRAME as u64 {
        assert(prefix_value(whole@) == prefix_value(prefix@));
        proof {
            lemma_too_large_carries_nothing(whole@);
        }
        return Err(CliError::Protocol("control frame too large".to_owned()));
    }
    assert(prefix_value(whole@) == prefix_value(prefix@));
    let decoded = decode_control_json(whole.as_slice(), MAX_CONTROL_FRAME);
    assert forall|sent: serde_json::Value|
        #![trigger json_bytes(sent)]
        carries(whole@, sent, MAX_CONTROL_FRAME as nat) && decoded is Ok implies reads_alike(
        sent,
        decoded->Ok_0,
    ) by {
        assert forall|key: Seq<char>| #[trigger]
            json_str(decoded->Ok_0, key) == json_str(sent, key) by {
            assert(json_bytes(sent) == json_bytes(sent));
        }
    }
    match decoded {
        Ok(value) => Ok(value),
        Err(ControlError::Json(why)) => Err(
            CliError::Protocol(concat("invalid json: ", why.as_str())),
        ),
        Err(ControlError::Protocol(why)) => Err(CliError::Protocol(why)),
        Err(ControlError::Io(why)) => Err(CliError::Protocol(why)),
    }
}

/// A frame that announces too much carries no message that is within the limit.
proof fn lemma_too_large_carries_nothing(buf: Seq<u8>)
    requires
        unframe(buf, MAX_CONTROL_FRAME as nat) is Err,
    ensures
        forall|sent: serde_json::Value| #[trigger]
            carries(buf, sent, MAX_CONTROL_FRAME as nat) ==> false,
{
    assert forall|sent: serde_json::Value| #[trigger]
        carries(buf, sent, MAX_CONTROL_FRAME as nat) implies false by {
        law_frame_round_trip(json_bytes(sent), MAX_CONTROL_FRAME as nat);
    }
}

/// The `type` of a message.
pub fn message_type(value: &serde_json::Value) -> (name: Option<&str>)
    ensures
        match name {
            Some(n) => json_str(*value, "type"@) == Some(n@),
            None => json_str(*value, "type"@) is None,
        },
{
    get_str(value, "type")
}

/// A message is read from a frame exactly if as many bytes were read as the frame announces, these
/// are not more than 65536, and they are a document; that document is the message.
pub proof fn law_messages_are_read(prefix: Seq<u8>, payload: Seq<u8>)
    requires
        prefix.len() == 4,
    ensures
        ({
            let announced = prefix[0] * 16777216 + prefix[1] * 65536 + prefix[2] * 256 + prefix[3];
            let read = message_of(prefix, payload);
            &&& announced == payload.len() && payload.len() <= 65536 ==> match json_parse(payload) {
                Ok(value) => read == Ok::<serde_json::Value, Seq<char>>(value),
                Err(why) => read == Err::<serde_json::Value, Seq<char>>("invalid json: "@ + why),
            }
            &&& announced > 65536 ==> read == Err::<serde_json::Value, Seq<char>>(
                "control frame too large"@,
            )
            &&& announced <= 65536 && announced != payload.len() ==> read == Err::<
                serde_json::Value,
                Seq<char>,
            >("frame length mismatch"@)
        }),
{
    assert((prefix + payload).skip(4) =~= payload);
}

/// An error that carries a message says it whole, behind what it is about.
pub proof fn law_errors_say_what_happened(m: String)
    ensures
        ControlError::Protocol(m).text() == "protocol error: "@ + m@,
        ControlError::Io(m).text() == "io error: "@ + m@,
        ControlError::Json(m).text() == "json error: "@ + m@,
{
}

} // verus!
