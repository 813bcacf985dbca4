//! Identifiers of sessions, connections, tokens and clients.

use crate::text::digit;
use vstd::arithmetic::power::pow;
use vstd::prelude::*;

verus! {

/// A 128-bit universally unique identifier.
#[derive(Clone, Copy, Debug, PartialEq, Eq, Structural, Hash)]
pub struct Uuid {
    pub value: u128,
}

/// Whether `value` has the version and variant bits of a random identifier.
pub open spec fn is_random_uuid(value: u128) -> bool {
    &&& (value >> 76) & 0xf == 4
    &&& (value >> 62) & 0x3 == 2
}

/// The hexadecimal digit in lower case of a number below sixteen.
pub open spec fn hex_digit(n: int) -> char {
    if n < 10 {
        digit(n as nat)
    } else if n == 10 {
        'a'
    } else if n == 11 {
        'b'
    } else if n == 12 {
        'c'
    } else if n == 13 {
        'd'
    } else if n == 14 {
        'e'
    } else {
        'f'
    }
}

/// Where the canonical form of an identifier has a hyphen.
pub open spec fn is_hyphen_position(i: int) -> bool {
    i == 8 || i == 13 || i == 18 || i == 23
}

/// How many hyphens the canonical form has before position `i`.
pub open spec fn hyphens_before(i: int) -> int {
    if i <= 8 {
        0
    } else if i <= 13 {
        1
    } else if i <= 18 {
        2
    } else if i <= 23 {
        3
    } else {
        4
    }
}

/// The canonical form: 32 hexadecimal digits, most significant first, in groups of 8, 4, 4, 4 and
/// 12 with hyphens between them.
pub open spec fn uuid_text(value: u128) -> Seq<char> {
    Seq::new(
        36,
        |i: int|
            if is_hyphen_position(i) {
                '-'
            } else {
                hex_digit(value as int / pow(16, (31 - (i - hyphens_before(i))) as nat) % 16)
            },
    )
}

/// Where the digit for a power of sixteen stands in the canonical form.
pub open spec fn digit_position(power: int) -> int {
    let i = 31 - power;
    if i < 8 {
        i
    } else if i < 12 {
        i + 1
    } else if i < 16 {
        i + 2
    } else if i < 20 {
        i + 3
    } else {
        i + 4
    }
}

/// Numbers with the same hexadecimal digits from a power of sixteen on agree from there on.
proof fn lemma_same_digits(a: u128, b: u128, power: nat)
    requires
        power <= 32,
        uuid_text(a) == uuid_text(b),
    ensures
        a as int / pow(16, power) == b as int / pow(16, power),
    decreases 32 - power,
{
    vstd::arithmetic::power::lemma_pow_positive(16, power);
    if power == 32 {
        assert(pow(16, 32) == 0x1_0000_0000_0000_0000_0000_0000_0000_0000) by {
            assert(pow(16, 4) == 0x1_0000) by {
                reveal_with_fuel(pow, 5);
            }
            vstd::arithmetic::power::lemma_pow_adds(16, 4, 4);
            assert(pow(16, 8) == 0x1_0000_0000);
            vstd::arithmetic::power::lemma_pow_adds(16, 8, 8);
            assert(pow(16, 16) == 0x1_0000_0000_0000_0000);
            vstd::arithmetic::power::lemma_pow_adds(16, 16, 16);
        }
        vstd::arithmetic::div_mod::lemma_basic_div(a as int, pow(16, 32));
        vstd::arithmetic::div_mod::lemma_basic_div(b as int, pow(16, 32));
    } else {
        lemma_same_digits(a, b, power + 1);
        let p = pow(16, power);
        let x = a as int / p;
        let y = b as int / p;
        vstd::arithmetic::power::lemma_pow1(16);
        vstd::arithmetic::power::lemma_pow_adds(16, power, 1);
        vstd::arithmetic::div_mod::lemma_div_denominator(a as int, p, 16);
        vstd::arithmetic::div_mod::lemma_div_denominator(b as int, p, 16);
        assert(x / 16 == y / 16);
        let i = digit_position(power as int);
        assert(uuid_text(a)[i] == hex_digit(x % 16));
        assert(uuid_text(b)[i] == hex_digit(y % 16));
        assert(x % 16 == y % 16);
        vstd::arithmetic::div_mod::lemma_fundamental_div_mod(x, 16);
        vstd::arithmetic::div_mod::lemma_fundamental_div_mod(y, 16);
    }
}

/// Different identifiers have different canonical forms.
pub proof fn law_uuid_text_is_unique(a: u128, b: u128)
    requires
        uuid_text(a) == uuid_text(b),
    ensures
        a == b,
{
    lemma_same_digits(a, b, 0);
    vstd::arithmetic::power::lemma_pow0(16);
    vstd::arithmetic::div_mod::lemma_div_basics(a as int);
    vstd::arithmetic::div_mod::lemma_div_basics(b as int);
}

/// What `uuid::Uuid::parse_str` reads from a text, or the text of its error.
pub uninterp spec fn uuid_parse(text: Seq<char>) -> Result<u128, Seq<char>>;

/// Calls `uuid::Uuid::new_v4`. Every outcome has the bits of a random identifier; which one it is
/// is left to chance.
#[verifier::external_body]
fn random_uuid() -> (value: u128)
    ensures
        is_random_uuid(value),
{
    uuid::Uuid::new_v4().as_u128()
}

/// Calls `to_string` on the `uuid::Uuid` of this value, which writes the canonical form.
#[verifier::external_body]
fn format_uuid(value: u128) -> (text: String)
    ensures
        text@ == uuid_text(value),
{
    uuid::Uuid::from_u128(value).to_string()
}

/// Calls `uuid::Uuid::parse_str`. It reads the canonical form of an identifier as that
/// identifier, and gives its reading of any text a name.
#[verifier::external_body]
fn parse_uuid(text: &str) -> (read: Result<u128, String>)
    ensures
        match read {
            Ok(value) => uuid_parse(text@) == Ok::<u128, Seq<char>>(value),
            Err(why) => uuid_parse(text@) == Err::<u128, Seq<char>>(why@),
        },
        forall|value: u128|
            #![trigger uuid_text(value)]
            text@ == uuid_text(value) ==> read is Ok && read->Ok_0 == value,
{
    uuid::Uuid::parse_str(text).map(|u| u.as_u128()).map_err(|e| e.to_string())
}

impl Uuid {
    /// The identifier with this value.
    pub fn from_u128(value: u128) -> (id: Uuid)
        ensures
            id.value == value,
    {
        Uuid { value }
    }

    /// A random identifier.
    pub fn new_v4() -> (id: Uuid)
        ensures
            is_random_uuid(id.value),
    {
        Uuid { value: random_uuid() }
    }

    /// The canonical form of the identifier.
    pub fn to_text(&self) -> (text: String)
        ensures
            text@ == uuid_text(self.value),
    {
        format_uuid(self.value)
    }

    /// Reads an identifier. The canonical form of any identifier is read as that identifier.
    pub fn parse_str(text: &str) -> (id: Result<Uuid, String>)
        ensures
            match id {
                Ok(u) => uuid_parse(text@) == Ok::<u128, Seq<char>>(u.value),
                Err(why) => uuid_parse(text@) == Err::<u128, Seq<char>>(why@),
            },
            forall|u: Uuid|
                #![trigger uuid_text(u.value)]
                text@ == uuid_text(u.value) ==> id is Ok && id->Ok_0 == u,
    {
        match parse_uuid(text) {
            Ok(value) => Ok(Uuid { value }),
            Err(why) => Err(why),
        }
    }
}

} // verus!
