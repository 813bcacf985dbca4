//! Hashing, random tokens and their encodings.

#[allow(unused_imports)]
use crate::ids::hex_digit;
#[allow(unused_imports)]
use crate::text::has_prefix;
use base64::Engine;
use rand::RngCore;
use sha2::Digest;
use subtle::ConstantTimeEq;
use vstd::prelude::*;

verus! {

/// The SHA-256 digest of `data`.
pub uninterp spec fn sha256(data: Seq<u8>) -> Seq<u8>;

/// Calls `sha2::Sha256::digest`, whose 32 bytes are a function of the data.
#[verifier::external_body]
pub(crate) fn sha256_digest(data: &[u8]) -> (digest: [u8; 32])
    ensures
        digest@ == sha256(data@),
{
    sha2::Sha256::digest(data).into()
}

/// Calls `subtle::ConstantTimeEq::ct_eq` on two slices: whether they hold the same bytes.
#[verifier::external_body]
pub(crate) fn bytes_ct_eq(a: &[u8], b: &[u8]) -> (same: bool)
    ensures
        same == (a@ == b@),
{
    a.ct_eq(b).into()
}

/// Calls `rand::rngs::OsRng::fill_bytes` on 32 bytes. Nothing is known of random bytes.
#[verifier::external_body]
fn random_bytes() -> (bytes: [u8; 32]) {
    let mut bytes = [0u8; 32];
    rand::rngs::OsRng.fill_bytes(&mut bytes);
    bytes
}

/// The digit of a number below 64 in the URL-safe alphabet.
pub open spec fn base64url_digit(n: int) -> char {
    if n < 26 {
        ('A' as int + n) as char
    } else if n < 52 {
        ('a' as int + (n - 26)) as char
    } else if n < 62 {
        ('0' as int + (n - 52)) as char
    } else if n == 62 {
        '-'
    } else {
        '_'
    }
}

/// The URL-safe Base64 form of `b`, without padding: each digit holds the next six bits, and the
/// last one is filled with zeros.
pub open spec fn base64url(b: Seq<u8>) -> Seq<char>
    decreases b.len(),
{
    if b.len() == 0 {
        Seq::empty()
    } else if b.len() == 1 {
        seq![base64url_digit(b[0] as int / 4), base64url_digit(b[0] as int % 4 * 16)]
    } else if b.len() == 2 {
        seq![
            base64url_digit(b[0] as int / 4),
            base64url_digit(b[0] as int % 4 * 16 + b[1] as int / 16),
            base64url_digit(b[1] as int % 16 * 4),
        ]
    } else {
        seq![
            base64url_digit(b[0] as int / 4),
            base64url_digit(b[0] as int % 4 * 16 + b[1] as int / 16),
            base64url_digit(b[1] as int % 16 * 4 + b[2] as int / 64),
            base64url_digit(b[2] as int % 64),
        ] + base64url(b.skip(3))
    }
}

/// Calls `encode` of the `base64` engine `URL_SAFE_NO_PAD`, which writes the URL-safe form
/// without padding.
#[verifier::external_body]
fn encode_base64url(bytes: &[u8; 32]) -> (text: String)
    ensures
        text@ == base64url(bytes@),
{
    base64::engine::general_purpose::URL_SAFE_NO_PAD.encode(bytes)
}

/// Whether `text` is the URL-safe form of 32 bytes.
pub open spec fn is_token_text(text: Seq<char>) -> bool {
    exists|bytes: Seq<u8>| bytes.len() == 32 && #[trigger] base64url(bytes) == text
}

/// How many characters the URL-safe form has.
proof fn lemma_base64url_len(b: Seq<u8>)
    ensures
        base64url(b).len() == (b.len() * 4 + 2) / 3,
    decreases b.len(),
{
    if b.len() >= 3 {
        lemma_base64url_len(b.skip(3));
    }
}

/// Every token has 43 characters.
pub proof fn law_token_length(text: Seq<char>)
    requires
        is_token_text(text),
    ensures
        text.len() == 43,
{
    let bytes = choose|bytes: Seq<u8>| bytes.len() == 32 && #[trigger] base64url(bytes) == text;
    lemma_base64url_len(bytes);
}

/// The characters that a token can hold.
pub open spec fn is_token_char(c: char) -> bool {
    'A' <= c <= 'Z' || 'a' <= c <= 'z' || '0' <= c <= '9' || c == '-' || c == '_'
}

/// The URL-safe form holds letters, digits, hyphens and underscores only.
proof fn lemma_base64url_chars(b: Seq<u8>, i: int)
    requires
        0 <= i < base64url(b).len(),
    ensures
        is_token_char(base64url(b)[i]),
    decreases b.len(),
{
    if b.len() >= 3 && i >= 4 {
        lemma_base64url_chars(b.skip(3), i - 4);
    }
}

/// A token holds no character that a URL, a shell or a JSON string would treat specially.
pub proof fn law_token_alphabet(text: Seq<char>, i: int)
    requires
        is_token_text(text),
        0 <= i < text.len(),
    ensures
        is_token_char(text[i]),
{
    let bytes = choose|bytes: Seq<u8>| bytes.len() == 32 && #[trigger] base64url(bytes) == text;
    lemma_base64url_chars(bytes, i);
}

/// The token that stands for 32 bytes.
pub fn token_text(bytes: &[u8; 32]) -> (text: String)
    ensures
        text@ == base64url(bytes@),
        is_token_text(text@),
{
    let text = encode_base64url(bytes);
    assert(bytes@.len() == 32);
    text
}

/// A new random token.
pub fn random_token() -> (text: String)
    ensures
        is_token_text(text@),
{
    let bytes = random_bytes();
    token_text(&bytes)
}

/// The bytes written in hexadecimal, two digits in lower case for each.
pub open spec fn hex(bytes: Seq<u8>) -> Seq<char> {
    Seq::new(
        2 * bytes.len(),
        |i: int|
            if i % 2 == 0 {
                hex_digit(bytes[i / 2] as int / 16)
            } else {
                hex_digit(bytes[i / 2] as int % 16)
            },
    )
}

/// A SHA-256 digest as a fingerprint.
pub open spec fn digest_text(digest: Seq<u8>) -> Seq<char> {
    "sha256:"@ + hex(digest)
}

/// The fingerprint of a certificate: its SHA-256 digest in hexadecimal.
pub open spec fn fingerprint(cert_der: Seq<u8>) -> Seq<char> {
    digest_text(sha256(cert_der))
}

/// Whether `c` is a hexadecimal digit, in either case.
pub open spec fn is_hex_digit(c: char) -> bool {
    '0' <= c <= '9' || 'a' <= c <= 'f' || 'A' <= c <= 'F'
}

/// Whether `text` is `sha256:` and 64 hexadecimal digits.
pub open spec fn is_fingerprint(text: Seq<char>) -> bool {
    &&& has_prefix(text, "sha256:"@)
    &&& text.len() == "sha256:"@.len() + 64
    &&& forall|i: int| "sha256:"@.len() <= i < text.len() ==> is_hex_digit(#[trigger] text[i])
}

/// The hexadecimal digit in lower case of a number below sixteen.
fn hex_char(n: u8) -> (c: char)
    requires
        n < 16,
    ensures
        c == hex_digit(n as int),
{
    if n == 0 {
        '0'
    } else if n == 1 {
        '1'
    } else if n == 2 {
        '2'
    } else if n == 3 {
        '3'
    } else if n == 4 {
        '4'
    } else if n == 5 {
        '5'
    } else if n == 6 {
        '6'
    } else if n == 7 {
        '7'
    } else if n == 8 {
        '8'
    } else if n == 9 {
        '9'
    } else if n == 10 {
        'a'
    } else if n == 11 {
        'b'
    } else if n == 12 {
        'c'
    } else if n == 13 {
        'd'
    } else if n == 14 {
        'e'
    } else {
        'f'
    }
}

/// The fingerprint of a certificate.
pub fn sha256_fingerprint(cert_der: &[u8]) -> (text: String)
    ensures
        text@ == fingerprint(cert_der@),
        is_fingerprint(text@),
{
    let digest = sha256_digest(cert_der);
    let mut out = "sha256:".to_owned();
    let mut i: usize = 0;
    assert(hex(digest@.take(0)) =~= Seq::<char>::empty());
    while i < 32
        invariant
            i <= 32,
            digest@.len() == 32,
            out@ == "sha256:"@ + hex(digest@.take(i as int)),
        decreases 32 - i,
    {
        let b = digest[i];
        out.push(hex_char(b / 16));
        out.push(hex_char(b % 16));
        assert(out@ =~= "sha256:"@ + hex(digest@.take(i + 1)));
        i += 1;
    }
    assert(digest@.take(32) =~= digest@);
    proof {
        law_fingerprint_shape(digest@);
    }
    out
}

/// A digest of 32 bytes is written as `sha256:` and 64 hexadecimal digits.
pub proof fn law_fingerprint_shape(digest: Seq<u8>)
    requires
        digest.len() == 32,
    ensures
        is_fingerprint(digest_text(digest)),
{
    let n = "sha256:"@.len() as int;
    let text = digest_text(digest);
    assert(text.take(n) =~= "sha256:"@);
    assert forall|i: int| n <= i < text.len() implies is_hex_digit(#[trigger] text[i]) by {
        assert(text[i] == hex(digest)[i - n]);
    }
}

/// Different digests are written differently.
pub proof fn law_fingerprint_tells_digests_apart(x: Seq<u8>, y: Seq<u8>)
    requires
        digest_text(x) == digest_text(y),
    ensures
        x == y,
{
    let n = "sha256:"@.len() as int;
    let a = digest_text(x);
    let b = digest_text(y);
    assert(a.len() == n + 2 * x.len());
    assert forall|i: int| 0 <= i < x.len() implies x[i] == y[i] by {
        assert(a[n + 2 * i] == hex_digit(x[i] as int / 16));
        assert(b[n + 2 * i] == hex_digit(y[i] as int / 16));
        assert(a[n + 2 * i + 1] == hex_digit(x[i] as int % 16));
        assert(b[n + 2 * i + 1] == hex_digit(y[i] as int % 16));
    }
    assert(x =~= y);
}

/// The number that a hexadecimal digit in lower case writes.
pub open spec fn hex_value(c: char) -> int {
    if '0' <= c <= '9' {
        c as int - '0' as int
    } else {
        c as int - 'a' as int + 10
    }
}

/// Every byte is written by two hexadecimal digits in lower case, the more significant one first,
/// and the bytes in their order.
pub proof fn law_hex_writes_every_byte(bytes: Seq<u8>, i: int)
    requires
        0 <= i < bytes.len(),
    ensures
        ({
            let high = hex(bytes)[2 * i];
            let low = hex(bytes)[2 * i + 1];
            &&& hex(bytes).len() == 2 * bytes.len()
            &&& '0' <= high <= '9' || 'a' <= high <= 'f'
            &&& '0' <= low <= '9' || 'a' <= low <= 'f'
            &&& hex_value(high) * 16 + hex_value(low) == bytes[i]
        }),
{
    assert(hex(bytes)[2 * i] == hex_digit(bytes[i] as int / 16));
    assert(hex(bytes)[2 * i + 1] == hex_digit(bytes[i] as int % 16));
}

/// The fingerprint of a certificate is the digest of all of it, behind `sha256:`.
pub proof fn law_fingerprint_is_of_the_certificate(cert_der: Seq<u8>)
    ensures
        fingerprint(cert_der) == "sha256:"@ + hex(sha256(cert_der)),
{
}

/// The six bits that a digit of the URL-safe form stands for.
pub open spec fn base64url_value(c: char) -> int {
    if 'A' <= c <= 'Z' {
        c as int - 'A' as int
    } else if 'a' <= c <= 'z' {
        c as int - 'a' as int + 26
    } else if '0' <= c <= '9' {
        c as int - '0' as int + 52
    } else if c == '-' {
        62
    } else {
        63
    }
}

/// A digit of the URL-safe form is read as the bits that it was written from.
proof fn lemma_base64url_digit(n: int)
    requires
        0 <= n < 64,
    ensures
        base64url_value(base64url_digit(n)) == n,
{
}

/// The URL-safe form keeps every bit: four digits hold three bytes, then come the digits of the
/// bytes that follow, and one or two bytes at the end are held by two or three digits.
pub proof fn law_tokens_keep_every_bit(b: Seq<u8>)
    ensures
        ({
            let text = base64url(b);
            let v = |i: int| base64url_value(text[i]);
            &&& b.len() == 0 ==> text.len() == 0
            &&& b.len() == 1 ==> text.len() == 2 && v(0) * 64 + v(1) == b[0] * 16
            &&& b.len() == 2 ==> text.len() == 3 && (v(0) * 64 + v(1)) * 64 + v(2) == (b[0] * 256
                + b[1]) * 4
            &&& b.len() >= 3 ==> {
                &&& text.len() >= 4
                &&& ((v(0) * 64 + v(1)) * 64 + v(2)) * 64 + v(3) == (b[0] * 256 + b[1]) * 256 + b[2]
                &&& text.skip(4) == base64url(b.skip(3))
            }
        }),
{
    let text = base64url(b);
    if b.len() >= 1 {
        let x = b[0] as int;
        lemma_base64url_digit(x / 4);
        lemma_base64url_digit(x % 4 * 16);
    }
    if b.len() >= 2 {
        let x = b[0] as int;
        let y = b[1] as int;
        lemma_base64url_digit(x % 4 * 16 + y / 16);
        lemma_base64url_digit(y % 16 * 4);
    }
    if b.len() >= 3 {
        let y = b[1] as int;
        let z = b[2] as int;
        lemma_base64url_digit(y % 16 * 4 + z / 64);
        lemma_base64url_digit(z % 64);
        assert(text.skip(4) =~= base64url(b.skip(3)));
    }
}

} // verus!
