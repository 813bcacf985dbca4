//! Text operations on `str` and `String`, specified over sequences of characters.

use vstd::prelude::*;
#[allow(unused_imports)]
use vstd::utf8::encode_utf8;

verus! {

/// `String::push` appends the character at the end and changes nothing else.
pub assume_specification[ String::push ](s: &mut String, c: char)
    ensures
        final(s)@ == old(s)@.push(c),
;

/// Whether two strings hold the same characters.
pub fn str_eq(a: &str, b: &str) -> (same: bool)
    ensures
        same == (a@ == b@),
{
    a.to_owned() == b.to_owned()
}

/// The characters of a string, in order.
pub fn chars_of(s: &str) -> (cs: Vec<char>)
    ensures
        cs@ == s@,
{
    let mut cs: Vec<char> = Vec::new();
    for c in it: s.chars()
        invariant
            cs@ == s@.take(it.index() as int),
            it.seq() == s@,
    {
        cs.push(c);
        assert(s@.take(it.index() + 1) == s@.take(it.index() as int).push(c));
    }
    assert(s@.take(s@.len() as int) == s@);
    cs
}

/// Appends the characters `cs[from..to]` to `out`.
pub fn append_chars(out: &mut String, cs: &Vec<char>, from: usize, to: usize)
    requires
        from <= to <= cs@.len(),
    ensures
        final(out)@ == old(out)@ + cs@.subrange(from as int, to as int),
{
    let ghost start = out@;
    let mut i: usize = from;
    while i < to
        invariant
            from <= i <= to <= cs@.len(),
            out@ == start + cs@.subrange(from as int, i as int),
        decreases to - i,
    {
        out.push(cs[i]);
        assert(cs@.subrange(from as int, i + 1) == cs@.subrange(from as int, i as int).push(
            cs@[i as int],
        ));
        i += 1;
    }
}

/// The string of the characters `cs[from..to]`.
pub fn string_of(cs: &Vec<char>, from: usize, to: usize) -> (s: String)
    requires
        from <= to <= cs@.len(),
    ensures
        s@ == cs@.subrange(from as int, to as int),
{
    let mut s = String::new();
    append_chars(&mut s, cs, from, to);
    s
}

/// The concatenation of two strings.
pub fn concat(a: &str, b: &str) -> (s: String)
    ensures
        s@ == a@ + b@,
{
    let mut s = a.to_owned();
    s.append(b);
    s
}

/// The characters with the Unicode `White_Space` property.
pub open spec fn is_space(c: char) -> bool {
    let n = c as u32;
    ||| 0x09 <= n <= 0x0d
    ||| n == 0x20
    ||| n == 0x85
    ||| n == 0xa0
    ||| n == 0x1680
    ||| 0x2000 <= n <= 0x200a
    ||| n == 0x2028
    ||| n == 0x2029
    ||| n == 0x202f
    ||| n == 0x205f
    ||| n == 0x3000
}

/// Whether `c` is white space.
pub fn is_whitespace(c: char) -> (yes: bool)
    ensures
        yes == is_space(c),
{
    let n = c as u32;
    (0x09 <= n && n <= 0x0d) || n == 0x20 || n == 0x85 || n == 0xa0 || n == 0x1680 || (0x2000 <= n
        && n <= 0x200a) || n == 0x2028 || n == 0x2029 || n == 0x202f || n == 0x205f || n == 0x3000
}

/// `s` without its leading white space.
pub open spec fn trimmed_start(s: Seq<char>) -> Seq<char>
    decreases s.len(),
{
    if s.len() > 0 && is_space(s[0]) {
        trimmed_start(s.drop_first())
    } else {
        s
    }
}

/// `s` without its trailing white space.
pub open spec fn trimmed_end(s: Seq<char>) -> Seq<char>
    decreases s.len(),
{
    if s.len() > 0 && is_space(s.last()) {
        trimmed_end(s.drop_last())
    } else {
        s
    }
}

/// `s` without white space at either end.
pub open spec fn trimmed(s: Seq<char>) -> Seq<char> {
    trimmed_end(trimmed_start(s))
}

/// Removes white space at both ends.
pub fn trim(s: &str) -> (t: String)
    ensures
        t@ == trimmed(s@),
{
    let cs = chars_of(s);
    let n = cs.len();
    let mut a: usize = 0;
    assert(cs@.subrange(0, n as int) == cs@);
    while a < n && is_whitespace(cs[a])
        invariant
            a <= n == cs@.len(),
            trimmed_start(cs@.subrange(a as int, n as int)) == trimmed_start(cs@),
        decreases n - a,
    {
        assert(cs@.subrange(a as int, n as int).drop_first() == cs@.subrange(a + 1, n as int));
        a += 1;
    }
    let mut b: usize = n;
    while a < b && is_whitespace(cs[b - 1])
        invariant
            a <= b <= n == cs@.len(),
            trimmed_end(cs@.subrange(a as int, b as int)) == trimmed_end(
                cs@.subrange(a as int, n as int),
            ),
        decreases b,
    {
        assert(cs@.subrange(a as int, b as int).drop_last() == cs@.subrange(a as int, b - 1));
        b -= 1;
    }
    string_of(&cs, a, b)
}

/// The parts of `s` between occurrences of `sep`: one more than there are occurrences.
pub open spec fn parts(s: Seq<char>, sep: char) -> Seq<Seq<char>>
    decreases s.len(),
{
    if s.len() == 0 {
        seq![Seq::<char>::empty()]
    } else {
        let before = parts(s.drop_last(), sep);
        if s.last() == sep {
            before.push(Seq::<char>::empty())
        } else {
            before.drop_last().push(before.last().push(s.last()))
        }
    }
}

/// A string always has at least one part.
pub proof fn lemma_parts_nonempty(s: Seq<char>, sep: char)
    ensures
        parts(s, sep).len() >= 1,
    decreases s.len(),
{
    if s.len() > 0 {
        lemma_parts_nonempty(s.drop_last(), sep);
    }
}

/// Strings as sequences of characters.
pub open spec fn texts(v: Seq<String>) -> Seq<Seq<char>> {
    v.map_values(|s: String| s@)
}

/// Splits `s` at every `sep`.
pub fn split_on(s: &str, sep: char) -> (v: Vec<String>)
    ensures
        texts(v@) == parts(s@, sep),
{
    let cs = chars_of(s);
    let mut v: Vec<String> = Vec::new();
    let mut part = String::new();
    let mut i: usize = 0;
    assert(cs@.take(0) == Seq::<char>::empty());
    assert(texts(v@).push(part@) == seq![Seq::<char>::empty()]);
    while i < cs.len()
        invariant
            i <= cs@.len(),
            texts(v@).push(part@) == parts(cs@.take(i as int), sep),
        decreases cs@.len() - i,
    {
        let ghost before = texts(v@).push(part@);
        assert(cs@.take(i + 1).drop_last() == cs@.take(i as int));
        if cs[i] == sep {
            v.push(part);
            part = String::new();
            assert(texts(v@) == before);
        } else {
            part.push(cs[i]);
            assert(before.drop_last() == texts(v@));
        }
        i += 1;
    }
    assert(cs@.take(cs@.len() as int) == cs@);
    let ghost all = texts(v@).push(part@);
    v.push(part);
    assert(texts(v@) == all);
    v
}

/// The words of `s` completed before its last character, and the word still open there.
pub open spec fn words_so_far(s: Seq<char>) -> (Seq<Seq<char>>, Seq<char>)
    decreases s.len(),
{
    if s.len() == 0 {
        (Seq::empty(), Seq::empty())
    } else {
        let (done, open) = words_so_far(s.drop_last());
        if !is_space(s.last()) {
            (done, open.push(s.last()))
        } else if open.len() > 0 {
            (done.push(open), Seq::empty())
        } else {
            (done, open)
        }
    }
}

/// The maximal runs of characters of `s` that are not white space.
pub open spec fn words(s: Seq<char>) -> Seq<Seq<char>> {
    let (done, open) = words_so_far(s);
    if open.len() > 0 {
        done.push(open)
    } else {
        done
    }
}

/// Splits `s` at white space.
pub fn split_words(s: &str) -> (v: Vec<String>)
    ensures
        texts(v@) == words(s@),
{
    let cs = chars_of(s);
    let mut v: Vec<String> = Vec::new();
    let mut open = String::new();
    let mut i: usize = 0;
    assert(cs@.take(0) == Seq::<char>::empty());
    assert(texts(v@) == Seq::<Seq<char>>::empty());
    while i < cs.len()
        invariant
            i <= cs@.len(),
            (texts(v@), open@) == words_so_far(cs@.take(i as int)),
        decreases cs@.len() - i,
    {
        assert(cs@.take(i + 1).drop_last() == cs@.take(i as int));
        if !is_whitespace(cs[i]) {
            open.push(cs[i]);
        } else if !open.as_str().is_empty() {
            let ghost done = texts(v@).push(open@);
            v.push(open);
            open = String::new();
            assert(texts(v@) == done);
            assert(open@ == Seq::<char>::empty());
        }
        i += 1;
    }
    assert(cs@.take(cs@.len() as int) == cs@);
    if !open.as_str().is_empty() {
        let ghost done = texts(v@).push(open@);
        v.push(open);
        assert(texts(v@) == done);
    }
    v
}

/// The first position at or after `from` where `pattern` occurs in `s`.
pub open spec fn first_match(s: Seq<char>, pattern: Seq<char>, from: int) -> Option<int>
    decreases s.len() - from,
{
    if from < 0 || from + pattern.len() > s.len() || from >= s.len() {
        None
    } else if s.subrange(from, from + pattern.len()) == pattern {
        Some(from)
    } else {
        first_match(s, pattern, from + 1)
    }
}

/// The last position before `before` that holds `c`.
pub open spec fn last_char(s: Seq<char>, c: char, before: int) -> Option<int>
    decreases before,
{
    if before <= 0 || before > s.len() {
        None
    } else if s[before - 1] == c {
        Some(before - 1)
    } else {
        last_char(s, c, before - 1)
    }
}

/// There is a last position that holds a character if and only if it is held.
pub proof fn lemma_last_char_is_held(s: Seq<char>, c: char, before: int)
    requires
        0 <= before <= s.len(),
    ensures
        last_char(s, c, before) is Some <==> s.take(before).contains(c),
    decreases before,
{
    if before > 0 {
        lemma_last_char_is_held(s, c, before - 1);
        let all = s.take(before);
        let most = s.take(before - 1);
        assert(all =~= most.push(s[before - 1]));
        if s[before - 1] == c {
            assert(all[before - 1] == c);
        } else if most.contains(c) {
            let i = choose|i: int| 0 <= i < most.len() && most[i] == c;
            assert(all[i] == c);
        } else if all.contains(c) {
            let i = choose|i: int| 0 <= i < all.len() && all[i] == c;
            assert(most[i] == c);
        }
    }
}

/// Finds two adjacent characters, searching forward from `from`.
pub fn find_pair(cs: &Vec<char>, a: char, b: char, from: usize) -> (at: Option<usize>)
    ensures
        match at {
            Some(i) => first_match(cs@, seq![a, b], from as int) == Some(i as int) && from <= i && i + 1
                < cs@.len(),
            None => first_match(cs@, seq![a, b], from as int) is None,
        },
{
    let mut i: usize = from;
    while i < cs.len() && cs.len() - i >= 2
        invariant
            from <= i,
            first_match(cs@, seq![a, b], from as int) == first_match(cs@, seq![a, b], i as int),
        decreases cs@.len() - i,
    {
        let ghost window = cs@.subrange(i as int, i + 2);
        if cs[i] == a && cs[i + 1] == b {
            assert(window == seq![a, b]);
            return Some(i);
        }
        assert(window[0] == cs@[i as int] && window[1] == cs@[i + 1]);
        assert(window != seq![a, b]) by {
            if window == seq![a, b] {
                assert(seq![a, b][0] == a && seq![a, b][1] == b);
            }
        }
        i += 1;
    }
    None
}

/// Finds the last occurrence of `c`.
pub fn rfind_char(cs: &Vec<char>, c: char) -> (at: Option<usize>)
    ensures
        match at {
            Some(i) => last_char(cs@, c, cs@.len() as int) == Some(i as int) && i < cs@.len(),
            None => last_char(cs@, c, cs@.len() as int) is None,
        },
{
    let mut i: usize = cs.len();
    while i > 0
        invariant
            i <= cs@.len(),
            last_char(cs@, c, cs@.len() as int) == last_char(cs@, c, i as int),
        decreases i,
    {
        if cs[i - 1] == c {
            return Some(i - 1);
        }
        i -= 1;
    }
    None
}

/// A decimal digit.
pub open spec fn is_digit(c: char) -> bool {
    '0' <= c <= '9'
}

/// The number a run of decimal digits stands for.
pub open spec fn decimal_value(s: Seq<char>) -> nat
    decreases s.len(),
{
    if s.len() == 0 {
        0
    } else {
        decimal_value(s.drop_last()) * 10 + (s.last() as u32 - '0' as u32) as nat
    }
}

/// Whether every character is a decimal digit.
pub open spec fn all_digits(s: Seq<char>) -> bool {
    forall|i: int| 0 <= i < s.len() ==> is_digit(#[trigger] s[i])
}

/// `s` without one leading plus sign.
pub open spec fn unsigned(s: Seq<char>) -> Seq<char> {
    if s.len() > 0 && s[0] == '+' {
        s.skip(1)
    } else {
        s
    }
}

/// The 16-bit number that `s` writes: an optional plus sign, then at least one decimal digit.
pub open spec fn port_number(s: Seq<char>) -> Option<u16> {
    let digits = unsigned(s);
    if digits.len() > 0 && all_digits(digits) && decimal_value(digits) <= u16::MAX {
        Some(decimal_value(digits) as u16)
    } else {
        None
    }
}

/// A number never has a smaller value than the number its leading digits write.
proof fn lemma_decimal_prefix(s: Seq<char>, n: int)
    requires
        0 <= n <= s.len(),
        all_digits(s),
    ensures
        decimal_value(s.take(n)) <= decimal_value(s),
    decreases s.len(),
{
    if n < s.len() {
        let shorter = s.drop_last();
        assert(all_digits(shorter)) by {
            assert forall|i: int| 0 <= i < shorter.len() implies is_digit(#[trigger] shorter[i]) by {
                assert(shorter[i] == s[i]);
            }
        }
        lemma_decimal_prefix(shorter, n);
        assert(shorter.take(n) == s.take(n));
        assert(is_digit(s[s.len() - 1]));
    } else {
        assert(s.take(n) == s);
    }
}

/// Reads a 16-bit number from `cs[from..to]`.
pub fn parse_u16(cs: &Vec<char>, from: usize, to: usize) -> (number: Option<u16>)
    requires
        from <= to <= cs@.len(),
    ensures
        number == port_number(cs@.subrange(from as int, to as int)),
{
    let ghost s = cs@.subrange(from as int, to as int);
    let start: usize = if from < to && cs[from] == '+' {
        from + 1
    } else {
        from
    };
    let ghost digits = unsigned(s);
    assert(digits == cs@.subrange(start as int, to as int));
    if start == to {
        return None;
    }
    let mut value: u32 = 0;
    let mut i: usize = start;
    assert(digits.take(0) == Seq::<char>::empty());
    while i < to
        invariant
            start <= i <= to <= cs@.len(),
            digits == cs@.subrange(start as int, to as int),
            s == cs@.subrange(from as int, to as int),
            digits == unsigned(s),
            digits.len() > 0,
            value == decimal_value(digits.take(i - start)),
            value <= u16::MAX,
            forall|k: int| 0 <= k < i - start ==> is_digit(#[trigger] digits[k]),
        decreases to - i,
    {
        let c = cs[i];
        assert(digits[i - start] == c);
        if !('0' <= c && c <= '9') {
            assert(!is_digit(digits[i - start]));
            return None;
        }
        let d: u32 = c as u32 - '0' as u32;
        value = value * 10 + d;
        assert(digits.take(i - start + 1).drop_last() == digits.take(i - start));
        assert(digits.take(i - start + 1).last() == c);
        if value > 0xffff {
            proof {
                if all_digits(digits) {
                    lemma_decimal_prefix(digits, i - start + 1);
                }
            }
            return None;
        }
        i += 1;
    }
    assert(digits.take(digits.len() as int) == digits);
    Some(value as u16)
}

/// Reads a 16-bit number.
pub fn read_port(s: &str) -> (number: Option<u16>)
    ensures
        number == port_number(s@),
{
    let cs = chars_of(s);
    assert(cs@.subrange(0, cs@.len() as int) =~= cs@);
    parse_u16(&cs, 0, cs.len())
}

/// The decimal digit of a number below ten.
pub open spec fn digit(n: nat) -> char {
    if n == 0 {
        '0'
    } else if n == 1 {
        '1'
    } else if n == 2 {
        '2'
    } else if n == 3 {
        '3'
    } else if n == 4 {
        '4'
    } else if n == 5 {
        '5'
    } else if n == 6 {
        '6'
    } else if n == 7 {
        '7'
    } else if n == 8 {
        '8'
    } else {
        '9'
    }
}

/// The decimal numeral of `n`, without leading zeros.
pub open spec fn decimal(n: nat) -> Seq<char>
    decreases n,
{
    if n < 10 {
        seq![digit(n)]
    } else {
        decimal(n / 10).push(digit(n % 10))
    }
}

/// A numeral is made of digits and stands for the number it was written from.
pub proof fn lemma_decimal_round_trip(n: nat)
    ensures
        decimal(n).len() > 0,
        all_digits(decimal(n)),
        decimal_value(decimal(n)) == n,
    decreases n,
{
    if n < 10 {
        assert(decimal(n).drop_last() == Seq::<char>::empty());
        assert(decimal_value(decimal(n).drop_last()) == 0);
    } else {
        lemma_decimal_round_trip(n / 10);
        let head = decimal(n / 10);
        assert(decimal(n).drop_last() == head);
        assert forall|i: int| 0 <= i < decimal(n).len() implies is_digit(#[trigger] decimal(n)[i]) by {
            if i < head.len() {
                assert(is_digit(head[i]));
            }
        }
    }
}

/// A numeral of at most `u16::MAX` is read back as the number it was written from.
pub proof fn lemma_port_round_trip(n: u16)
    ensures
        port_number(decimal(n as nat)) == Some(n),
{
    lemma_decimal_round_trip(n as nat);
    assert(is_digit(decimal(n as nat)[0]));
}

/// Appends the decimal numeral of `n`.
pub fn append_decimal(out: &mut String, n: u64)
    ensures
        final(out)@ == old(out)@ + decimal(n as nat),
    decreases n,
{
    let ghost start = out@;
    if n >= 10 {
        append_decimal(out, n / 10);
    }
    let d = n % 10;
    let c = if d == 0 {
        '0'
    } else if d == 1 {
        '1'
    } else if d == 2 {
        '2'
    } else if d == 3 {
        '3'
    } else if d == 4 {
        '4'
    } else if d == 5 {
        '5'
    } else if d == 6 {
        '6'
    } else if d == 7 {
        '7'
    } else if d == 8 {
        '8'
    } else {
        '9'
    };
    out.push(c);
    assert(out@ == start + decimal(n as nat));
}

/// Whether `s` begins with `prefix`.
pub open spec fn has_prefix(s: Seq<char>, prefix: Seq<char>) -> bool {
    prefix.len() <= s.len() && s.take(prefix.len() as int) == prefix
}

/// Whether the characters begin with `prefix`.
pub fn starts_with(cs: &Vec<char>, prefix: &str) -> (yes: bool)
    ensures
        yes == has_prefix(cs@, prefix@),
{
    let p = chars_of(prefix);
    if p.len() > cs.len() {
        return false;
    }
    let mut i: usize = 0;
    while i < p.len()
        invariant
            i <= p@.len() <= cs@.len(),
            p@ == prefix@,
            forall|k: int| 0 <= k < i ==> cs@[k] == p@[k],
        decreases p@.len() - i,
    {
        if cs[i] != p[i] {
            assert(cs@.take(p@.len() as int)[i as int] != p@[i as int]);
            return false;
        }
        i += 1;
    }
    assert(cs@.take(p@.len() as int) == p@);
    true
}

/// What `String::from_utf8_lossy` reads from bytes.
pub uninterp spec fn utf8_lossy(bytes: Seq<u8>) -> Seq<char>;

/// Calls `String::from_utf8_lossy`. Bytes that encode a text are read as that text; what else they
/// are read as has a name.
#[verifier::external_body]
pub(crate) fn lossy_text(bytes: &[u8]) -> (text: String)
    ensures
        text@ == utf8_lossy(bytes@),
        forall|s: Seq<char>| bytes@ == #[trigger] encode_utf8(s) ==> text@ == s,
{
    String::from_utf8_lossy(bytes).into_owned()
}

/// Among the ASCII characters, white space is the space, the tab, the line feed, the vertical tab,
/// the form feed and the carriage return.
pub proof fn law_ascii_white_space(c: char)
    requires
        (c as u32) < 0x80,
    ensures
        is_space(c) <==> c == ' ' || c == '\t' || c == '\n' || c == '\u{0b}' || c == '\u{0c}' || c
            == '\r',
{
}

/// What leading white space is removed.
proof fn lemma_trimmed_start(s: Seq<char>) -> (n: int)
    ensures
        0 <= n <= s.len(),
        trimmed_start(s) == s.skip(n),
        forall|i: int| 0 <= i < n ==> is_space(#[trigger] s[i]),
        n < s.len() ==> !is_space(s[n]),
    decreases s.len(),
{
    if s.len() > 0 && is_space(s[0]) {
        let n = lemma_trimmed_start(s.drop_first());
        assert(s.drop_first().skip(n) =~= s.skip(n + 1));
        assert forall|i: int| 0 <= i < n + 1 implies is_space(#[trigger] s[i]) by {
            if i > 0 {
                assert(s.drop_first()[i - 1] == s[i]);
            }
        }
        n + 1
    } else {
        assert(s.skip(0) =~= s);
        0
    }
}

/// What trailing white space is removed.
proof fn lemma_trimmed_end(s: Seq<char>) -> (n: int)
    ensures
        0 <= n <= s.len(),
        trimmed_end(s) == s.take(n),
        forall|i: int| n <= i < s.len() ==> is_space(#[trigger] s[i]),
        n > 0 ==> !is_space(s[n - 1]),
    decreases s.len(),
{
    if s.len() > 0 && is_space(s.last()) {
        let n = lemma_trimmed_end(s.drop_last());
        assert(s.drop_last().take(n) =~= s.take(n));
        assert forall|i: int| n <= i < s.len() implies is_space(#[trigger] s[i]) by {
            if i < s.len() - 1 {
                assert(s.drop_last()[i] == s[i]);
            }
        }
        n
    } else {
        assert(s.take(s.len() as int) =~= s);
        s.len() as int
    }
}

/// Trimming takes away white space at both ends and nothing else, and all of it: what is left is a
/// part of the text that neither begins nor ends with white space.
pub proof fn law_trimming_takes_the_ends(s: Seq<char>) -> (ends: (int, int))
    ensures
        0 <= ends.0 <= ends.1 <= s.len(),
        trimmed(s) == s.subrange(ends.0, ends.1),
        forall|i: int| 0 <= i < ends.0 ==> is_space(#[trigger] s[i]),
        forall|i: int| ends.1 <= i < s.len() ==> is_space(#[trigger] s[i]),
        ends.0 < ends.1 ==> !is_space(s[ends.0]) && !is_space(s[ends.1 - 1]),
{
    let a = lemma_trimmed_start(s);
    let rest = s.skip(a);
    let n = lemma_trimmed_end(rest);
    assert(rest.take(n) =~= s.subrange(a, a + n));
    assert forall|i: int| a + n <= i < s.len() implies is_space(#[trigger] s[i]) by {
        assert(rest[i - a] == s[i]);
    }
    if n > 0 {
        assert(rest[n - 1] == s[a + n - 1]);
        assert(rest[0] == s[a]);
    }
    (a, a + n)
}

/// Splitting at a separator leaves the text on either side of it to be split by itself.
pub proof fn lemma_parts_around(a: Seq<char>, b: Seq<char>, sep: char)
    ensures
        parts(a.push(sep) + b, sep) == parts(a, sep) + parts(b, sep),
    decreases b.len(),
{
    let s = a.push(sep) + b;
    if b.len() == 0 {
        assert(s =~= a.push(sep));
        assert(s.drop_last() =~= a);
        assert(parts(s, sep) =~= parts(a, sep) + parts(b, sep));
    } else {
        let shorter = b.drop_last();
        lemma_parts_around(a, shorter, sep);
        lemma_parts_nonempty(shorter, sep);
        assert(s.drop_last() =~= a.push(sep) + shorter);
        assert(s.last() == b.last());
        let left = parts(a, sep);
        let right = parts(shorter, sep);
        assert((left + right).last() == right.last());
        assert(parts(s, sep) =~= left + parts(b, sep));
    }
}

/// A text without the separator is its only part.
proof fn lemma_single_part(s: Seq<char>, sep: char)
    requires
        !s.contains(sep),
    ensures
        parts(s, sep) == seq![s],
    decreases s.len(),
{
    if s.len() == 0 {
        assert(s =~= Seq::<char>::empty());
    } else {
        let shorter = s.drop_last();
        assert(!shorter.contains(sep)) by {
            if shorter.contains(sep) {
                let i = choose|i: int| 0 <= i < shorter.len() && shorter[i] == sep;
                assert(s[i] == sep);
            }
        }
        lemma_single_part(shorter, sep);
        assert(s.last() == s[s.len() - 1]);
        assert(shorter.push(s.last()) =~= s);
        assert(parts(s, sep) =~= seq![s]);
    }
}

/// The parts of a text are what stands before the first separator, and then the parts of what
/// follows it; a text without the separator is its only part.
pub proof fn law_parts_stand_between_separators(first: Seq<char>, rest: Seq<char>, sep: char)
    requires
        !first.contains(sep),
    ensures
        parts(first, sep) == seq![first],
        parts(first.push(sep) + rest, sep) == seq![first] + parts(rest, sep),
{
    lemma_single_part(first, sep);
    lemma_parts_around(first, rest, sep);
}

/// The words around a space, when the rest after it has been gone through.
proof fn lemma_words_around(a: Seq<char>, space: char, b: Seq<char>)
    requires
        is_space(space),
    ensures
        words_so_far(a.push(space) + b) == (words(a) + words_so_far(b).0, words_so_far(b).1),
    decreases b.len(),
{
    let s = a.push(space) + b;
    if b.len() == 0 {
        assert(s =~= a.push(space));
        assert(s.drop_last() =~= a);
        assert(words(a) + words_so_far(b).0 =~= words(a));
    } else {
        lemma_words_around(a, space, b.drop_last());
        assert(s.drop_last() =~= a.push(space) + b.drop_last());
        assert(s.last() == b.last());
        let (done, open) = words_so_far(b.drop_last());
        assert(words(a) + done.push(open) =~= (words(a) + done).push(open));
    }
}

/// A text without white space is a word in the making.
proof fn lemma_single_word(s: Seq<char>)
    requires
        forall|i: int| 0 <= i < s.len() ==> !is_space(#[trigger] s[i]),
    ensures
        words_so_far(s) == (Seq::<Seq<char>>::empty(), s),
    decreases s.len(),
{
    if s.len() == 0 {
        assert(s =~= Seq::<char>::empty());
    } else {
        let shorter = s.drop_last();
        assert forall|i: int| 0 <= i < shorter.len() implies !is_space(#[trigger] shorter[i]) by {
            assert(s[i] == shorter[i]);
        }
        lemma_single_word(shorter);
        assert(!is_space(s[s.len() - 1]));
        assert(shorter.push(s.last()) =~= s);
    }
}

/// The words of a text are found on either side of any white space by themselves; a text without
/// white space is one word, unless it is empty.
pub proof fn law_words_stand_between_spaces(
    a: Seq<char>,
    space: char,
    b: Seq<char>,
    word: Seq<char>,
)
    requires
        is_space(space),
        word.len() > 0,
        forall|i: int| 0 <= i < word.len() ==> !is_space(#[trigger] word[i]),
    ensures
        words(a.push(space) + b) == words(a) + words(b),
        words(word) == seq![word],
        words(Seq::<char>::empty()).len() == 0,
{
    lemma_words_around(a, space, b);
    lemma_single_word(word);
    let (done, open) = words_so_far(b);
    if open.len() > 0 {
        assert((words(a) + done).push(open) =~= words(a) + done.push(open));
    }
    assert(Seq::<Seq<char>>::empty().push(word) =~= seq![word]);
}

/// The first match is a match, and there is none before it; and there is a first match if there is
/// any.
pub proof fn law_first_match_is_first(s: Seq<char>, pattern: Seq<char>, from: int)
    requires
        0 <= from,
        pattern.len() > 0,
    ensures
        match first_match(s, pattern, from) {
            Some(at) => {
                &&& from <= at
                &&& at + pattern.len() <= s.len()
                &&& s.subrange(at, at + pattern.len()) == pattern
                &&& forall|i: int|
                    from <= i < at ==> #[trigger] s.subrange(i, i + pattern.len()) != pattern
            },
            None => forall|i: int|
                from <= i && i + pattern.len() <= s.len() ==> #[trigger] s.subrange(
                    i,
                    i + pattern.len(),
                ) != pattern,
        },
    decreases s.len() - from,
{
    if from + pattern.len() <= s.len() && s.subrange(from, from + pattern.len()) != pattern {
        law_first_match_is_first(s, pattern, from + 1);
    }
}

/// The last position that holds a character does, and none after it; and there is a last one if
/// there is any.
pub proof fn law_last_char_is_last(s: Seq<char>, c: char)
    ensures
        match last_char(s, c, s.len() as int) {
            Some(at) => {
                &&& 0 <= at < s.len()
                &&& s[at] == c
                &&& forall|i: int| at < i < s.len() ==> #[trigger] s[i] != c
            },
            None => forall|i: int| 0 <= i < s.len() ==> #[trigger] s[i] != c,
        },
{
    lemma_last_char(s, c, s.len() as int);
}

/// The last position that holds a character before another one.
proof fn lemma_last_char(s: Seq<char>, c: char, before: int)
    requires
        0 <= before <= s.len(),
    ensures
        match last_char(s, c, before) {
            Some(at) => {
                &&& 0 <= at < before
                &&& s[at] == c
                &&& forall|i: int| at < i < before ==> #[trigger] s[i] != c
            },
            None => forall|i: int| 0 <= i < before ==> #[trigger] s[i] != c,
        },
    decreases before,
{
    if before > 0 && s[before - 1] != c {
        lemma_last_char(s, c, before - 1);
    }
}

/// A numeral writes a number in decimal digits, most significant first and without a zero in front:
/// the digits before the last one write the tenth of the number.
pub proof fn law_numerals(n: nat)
    ensures
        n < 10 ==> decimal(n) == seq![('0' as u32 + n) as char],
        n >= 10 ==> decimal(n) == decimal(n / 10).push(('0' as u32 + n % 10) as char),
        n > 0 ==> decimal(n)[0] != '0',
    decreases n,
{
    if n >= 10 {
        law_numerals(n / 10);
        lemma_decimal_round_trip(n / 10);
        assert(decimal(n)[0] == decimal(n / 10)[0]);
    }
}

/// A port is read from its numeral, with or without a plus sign in front, and from nothing that is
/// empty, holds anything but digits, or is too large.
pub proof fn law_ports_are_read(n: u16, s: Seq<char>, digits: Seq<char>, c: char)
    requires
        digits.len() > 0,
        forall|i: int| 0 <= i < digits.len() ==> '0' <= #[trigger] digits[i] <= '9',
    ensures
        port_number(decimal(n as nat)) == Some(n),
        port_number(seq!['+'] + decimal(n as nat)) == Some(n),
        port_number(Seq::<char>::empty()) is None,
        port_number(seq!['+']) is None,
        !('0' <= c <= '9') ==> port_number(digits.push(c)) is None,
        !('0' <= c <= '9') && c != '+' ==> port_number(seq![c] + s) is None,
        port_number(digits) is Some <==> decimal_value(digits) <= 65535,
        decimal_value(digits) <= 65535 ==> port_number(digits) == Some(
            decimal_value(digits) as u16,
        ),
        decimal_value(digits) == 10 * decimal_value(digits.drop_last()) + (digits.last() as u32
            - '0' as u32),
{
    lemma_port_round_trip(n);
    lemma_decimal_round_trip(n as nat);
    assert((seq!['+'] + decimal(n as nat)).skip(1) =~= decimal(n as nat));
    assert((seq!['+'] + decimal(n as nat))[0] == '+');
    assert(seq!['+'].skip(1) =~= Seq::<char>::empty());
    assert(is_digit(digits[0]));
    assert(all_digits(digits));
    let more = digits.push(c);
    assert(more[0] == digits[0]);
    if !('0' <= c <= '9') {
        assert(more[digits.len() as int] == c);
        assert(!all_digits(more));
        assert((seq![c] + s)[0] == c);
        assert(c != '+' ==> !all_digits(seq![c] + s));
    }
}

} // verus!
