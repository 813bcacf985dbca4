//! Length-prefixed frames: four bytes of length, most significant first, then the payload.

use vstd::prelude::*;
use vstd::slice::slice_subrange;

verus! {

/// Why bytes are not a frame.
#[derive(Debug, PartialEq, Eq, Structural, Clone, Copy)]
pub enum FramingError {
    TooShort,
    LengthMismatch,
    TooLarge,
}

impl FramingError {
    /// What the error says.
    pub open spec fn text(self) -> Seq<char> {
        match self {
            FramingError::TooShort => "frame too short"@,
            FramingError::LengthMismatch => "frame length mismatch"@,
            FramingError::TooLarge => "frame too large"@,
        }
    }

    /// What the error says.
    pub fn message(self) -> (m: String)
        ensures
            m@ == self.text(),
    {
        match self {
            FramingError::TooShort => "frame too short".to_owned(),
            FramingError::LengthMismatch => "frame length mismatch".to_owned(),
            FramingError::TooLarge => "frame too large".to_owned(),
        }
    }
}

/// The four bytes of `n` modulo 2 to the 32nd, most significant first.
pub open spec fn length_prefix(n: nat) -> Seq<u8> {
    seq![
        (n / 0x1000000 % 0x100) as u8,
        (n / 0x10000 % 0x100) as u8,
        (n / 0x100 % 0x100) as u8,
        (n % 0x100) as u8,
    ]
}

/// The number that four bytes write, most significant first.
pub open spec fn prefix_value(b: Seq<u8>) -> nat {
    (b[0] * 0x1000000 + b[1] * 0x10000 + b[2] * 0x100 + b[3]) as nat
}

/// The frame that carries `payload`.
pub open spec fn frame(payload: Seq<u8>) -> Seq<u8> {
    length_prefix(payload.len()) + payload
}

/// What a frame of at most `max_payload_len` payload bytes carries, or why it is none.
pub open spec fn unframe(buf: Seq<u8>, max_payload_len: nat) -> Result<Seq<u8>, FramingError> {
    if buf.len() < 4 {
        Err(FramingError::TooShort)
    } else if prefix_value(buf) > max_payload_len {
        Err(FramingError::TooLarge)
    } else if buf.len() != 4 + prefix_value(buf) {
        Err(FramingError::LengthMismatch)
    } else {
        Ok(buf.skip(4))
    }
}

/// Puts `payload` into a frame. The length field holds the low 32 bits of the length.
pub fn encode_frame(payload: &[u8]) -> (out: Vec<u8>)
    ensures
        out@ == frame(payload@),
{
    let n: u64 = payload.len() as u64;
    let mut out: Vec<u8> = Vec::new();
    out.push((n / 0x1000000 % 0x100) as u8);
    out.push((n / 0x10000 % 0x100) as u8);
    out.push((n / 0x100 % 0x100) as u8);
    out.push((n % 0x100) as u8);
    out.extend_from_slice(payload);
    assert(out@ == frame(payload@));
    out
}

/// The length that the first four bytes of a frame announce.
pub fn payload_length(prefix: &[u8]) -> (n: u32)
    requires
        prefix@.len() >= 4,
    ensures
        n == prefix_value(prefix@),
{
    prefix[0] as u32 * 0x1000000 + prefix[1] as u32 * 0x10000 + prefix[2] as u32 * 0x100
        + prefix[3] as u32
}

/// Takes the payload out of a frame.
pub fn decode_frame(buf: &[u8], max_payload_len: usize) -> (payload: Result<&[u8], FramingError>)
    ensures
        match payload {
            Ok(p) => unframe(buf@, max_payload_len as nat) == Ok::<Seq<u8>, FramingError>(p@),
            Err(e) => unframe(buf@, max_payload_len as nat) == Err::<Seq<u8>, FramingError>(e),
        },
{
    if buf.len() < 4 {
        return Err(FramingError::TooShort);
    }
    let n: u64 = payload_length(buf) as u64;
    if n > max_payload_len as u64 {
        return Err(FramingError::TooLarge);
    }
    if buf.len() as u64 != 4 + n {
        return Err(FramingError::LengthMismatch);
    }
    assert(buf@.skip(4) == buf@.subrange(4, buf@.len() as int));
    Ok(slice_subrange(buf, 4, buf.len()))
}

/// Four length bytes are read as the number that they were written from.
pub proof fn lemma_prefix_round_trip(n: nat)
    requires
        n < 0x1_0000_0000,
    ensures
        prefix_value(length_prefix(n)) == n,
{
}

/// Taking the payload out of its frame gives the payload back, for any payload whose length is
/// within the limit and fits the length field.
pub proof fn law_frame_round_trip(payload: Seq<u8>, max_payload_len: nat)
    requires
        payload.len() <= max_payload_len,
        payload.len() < 0x1_0000_0000,
    ensures
        unframe(frame(payload), max_payload_len) == Ok::<Seq<u8>, FramingError>(payload),
{
    lemma_prefix_round_trip(payload.len());
    let f = frame(payload);
    assert(prefix_value(f) == prefix_value(length_prefix(payload.len())));
    assert(f.skip(4) == payload);
}

/// The four bytes of a number are found again by division.
proof fn lemma_prefix_bytes(b0: int, b1: int, b2: int, b3: int)
    requires
        0 <= b0 < 0x100,
        0 <= b1 < 0x100,
        0 <= b2 < 0x100,
        0 <= b3 < 0x100,
    ensures
        ({
            let n = b0 * 0x1000000 + b1 * 0x10000 + b2 * 0x100 + b3;
            &&& n % 0x100 == b3
            &&& n / 0x100 % 0x100 == b2
            &&& n / 0x10000 % 0x100 == b1
            &&& n / 0x1000000 % 0x100 == b0
        }),
{
    let n = b0 * 0x1000000 + b1 * 0x10000 + b2 * 0x100 + b3;
    assert(n / 0x100 == b0 * 0x10000 + b1 * 0x100 + b2);
    assert(n / 0x10000 == b0 * 0x100 + b1);
    assert(n / 0x1000000 == b0);
}

/// Bytes that are taken for a frame are the frame of what was taken out of them: no other bytes
/// carry the same payload.
pub proof fn law_unframe_exact(buf: Seq<u8>, max_payload_len: nat)
    requires
        unframe(buf, max_payload_len) is Ok,
    ensures
        frame(unframe(buf, max_payload_len)->Ok_0) == buf,
        unframe(buf, max_payload_len)->Ok_0.len() <= max_payload_len,
{
    let p = unframe(buf, max_payload_len)->Ok_0;
    let n = prefix_value(buf);
    assert(p.len() == n);
    lemma_prefix_bytes(buf[0] as int, buf[1] as int, buf[2] as int, buf[3] as int);
    assert(length_prefix(n) =~= buf.take(4));
    assert(frame(p) =~= buf);
}

/// A payload over the limit is refused as too large, however its frame was cut.
pub proof fn law_oversized_refused(payload: Seq<u8>, max_payload_len: nat)
    requires
        payload.len() > max_payload_len,
        payload.len() < 0x1_0000_0000,
    ensures
        unframe(frame(payload), max_payload_len) == Err::<Seq<u8>, FramingError>(
            FramingError::TooLarge,
        ),
{
    lemma_prefix_round_trip(payload.len());
    assert(prefix_value(frame(payload)) == prefix_value(length_prefix(payload.len())));
}

/// A frame is four bytes that write the length of the payload, most significant first, and then the
/// payload as it is.
pub proof fn law_frames_carry_their_length(payload: Seq<u8>)
    requires
        payload.len() < 0x1_0000_0000,
    ensures
        frame(payload).len() == payload.len() + 4,
        frame(payload)[0] * 16777216 + frame(payload)[1] * 65536 + frame(payload)[2] * 256
            + frame(payload)[3] == payload.len(),
        forall|i: int| 0 <= i < payload.len() ==> frame(payload)[i + 4] == #[trigger] payload[i],
{
    lemma_prefix_round_trip(payload.len());
}

/// Bytes are taken for a frame exactly if they are as many as the first four of them say, and not
/// more than the limit; the payload is what follows those four. Otherwise the answer says whether
/// there are too few bytes for a length, whether it is too large, or whether it does not fit.
pub proof fn law_what_is_a_frame(buf: Seq<u8>, max_payload_len: nat)
    ensures
        ({
            let n = buf[0] * 16777216 + buf[1] * 65536 + buf[2] * 256 + buf[3];
            let read = unframe(buf, max_payload_len);
            &&& buf.len() < 4 <==> read == Err::<Seq<u8>, FramingError>(FramingError::TooShort)
            &&& buf.len() >= 4 && n > max_payload_len <==> read == Err::<Seq<u8>, FramingError>(
                FramingError::TooLarge,
            )
            &&& buf.len() >= 4 && n <= max_payload_len && buf.len() != n + 4 <==> read == Err::<
                Seq<u8>,
                FramingError,
            >(FramingError::LengthMismatch)
            &&& read matches Ok(payload) ==> payload.len() == n && forall|i: int|
                0 <= i < n ==> (#[trigger] payload[i]) == buf[i + 4]
        }),
{
}

/// Each error says what is wrong with the frame.
pub proof fn law_errors_say_what_happened()
    ensures
        FramingError::TooShort.text() == "frame too short"@,
        FramingError::LengthMismatch.text() == "frame length mismatch"@,
        FramingError::TooLarge.text() == "frame too large"@,
{
}

} // verus!
