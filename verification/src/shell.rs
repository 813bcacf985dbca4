//! Quoting for a POSIX shell.

use crate::text::chars_of;
use vstd::prelude::*;

verus! {

/// How a character is written between single quotes: a single quote closes them, stands escaped,
/// and opens them again.
pub open spec fn escaped_char(c: char) -> Seq<char> {
    if c == '\'' {
        seq!['\'', '\\', '\'', '\'']
    } else {
        seq![c]
    }
}

/// How a text is written between single quotes.
pub open spec fn escaped(s: Seq<char>) -> Seq<char>
    decreases s.len(),
{
    if s.len() == 0 {
        Seq::empty()
    } else {
        escaped(s.drop_last()) + escaped_char(s.last())
    }
}

/// A text in single quotes.
pub open spec fn quoted(s: Seq<char>) -> Seq<char> {
    seq!['\''] + escaped(s) + seq!['\'']
}

/// Appends a text as it is written between single quotes.
pub fn append_escaped(out: &mut String, input: &str)
    ensures
        final(out)@ == old(out)@ + escaped(input@),
{
    let cs = chars_of(input);
    let ghost start = out@;
    let mut i: usize = 0;
    assert(cs@.take(0) =~= Seq::<char>::empty());
    while i < cs.len()
        invariant
            i <= cs@.len(),
            out@ == start + escaped(cs@.take(i as int)),
        decreases cs@.len() - i,
    {
        assert(cs@.take(i + 1).drop_last() =~= cs@.take(i as int));
        if cs[i] == '\'' {
            out.push('\'');
            out.push('\\');
            out.push('\'');
            out.push('\'');
        } else {
            out.push(cs[i]);
        }
        assert(out@ =~= start + escaped(cs@.take(i + 1)));
        i += 1;
    }
    assert(cs@.take(cs@.len() as int) =~= cs@);
}

/// Puts a text in single quotes.
pub fn shell_single_quote(input: &str) -> (text: String)
    ensures
        text@ == quoted(input@),
{
    let mut text = String::new();
    text.push('\'');
    append_escaped(&mut text, input);
    text.push('\'');
    assert(text@ =~= quoted(input@));
    text
}

/// What a shell reads from a word that is made of quoted text alone: single quotes keep what is
/// between them as it is, and a backslash outside of them keeps the next character. Any other
/// character outside of quotes might mean something else to the shell, so a text with one is no
/// such word, nor is one that ends inside quotes or after a backslash.
pub open spec fn shell_word(text: Seq<char>, in_quotes: bool) -> Option<Seq<char>>
    decreases text.len(),
{
    if text.len() == 0 {
        if in_quotes {
            None
        } else {
            Some(Seq::empty())
        }
    } else if text[0] == '\'' {
        shell_word(text.skip(1), !in_quotes)
    } else if !in_quotes && text[0] == '\\' {
        if text.len() < 2 {
            None
        } else {
            preceded(seq![text[1]], shell_word(text.skip(2), false))
        }
    } else if in_quotes {
        preceded(seq![text[0]], shell_word(text.skip(1), true))
    } else {
        None
    }
}

/// A text before another one, if there is one.
pub open spec fn preceded(a: Seq<char>, b: Option<Seq<char>>) -> Option<Seq<char>> {
    match b {
        Some(rest) => Some(a + rest),
        None => None,
    }
}

/// Between single quotes, a shell reads a character from how it is written there.
proof fn lemma_read_char(c: char, rest: Seq<char>)
    ensures
        shell_word(escaped_char(c) + rest, true) == preceded(seq![c], shell_word(rest, true)),
{
    let text = escaped_char(c) + rest;
    if c == '\'' {
        assert(text[0] == '\'');
        let one = text.skip(1);
        assert(one[0] == '\\' && one[1] == '\'');
        let two = one.skip(2);
        assert(two[0] == '\'');
        assert(two.skip(1) =~= rest);
        assert(shell_word(two, false) == shell_word(rest, true));
        assert(shell_word(one, false) == preceded(seq!['\''], shell_word(two, false)));
    } else {
        assert(text[0] == c);
        assert(text.skip(1) =~= rest);
    }
}

/// Between single quotes, a shell reads a text from how it is written there.
proof fn lemma_read_escaped(s: Seq<char>, rest: Seq<char>)
    ensures
        shell_word(escaped(s) + rest, true) == preceded(s, shell_word(rest, true)),
    decreases s.len(),
{
    if s.len() == 0 {
        assert(escaped(s) + rest =~= rest);
        match shell_word(rest, true) {
            Some(r) => {
                assert(s + r =~= r);
            },
            None => {},
        }
    } else {
        let last = s.last();
        let before = s.drop_last();
        lemma_read_escaped(before, escaped_char(last) + rest);
        lemma_read_char(last, rest);
        assert(escaped(s) + rest =~= escaped(before) + (escaped_char(last) + rest));
        match shell_word(rest, true) {
            Some(r) => {
                assert(before + (seq![last] + r) =~= s + r);
            },
            None => {},
        }
    }
}

/// A shell reads any text back from its quoted form, whatever characters it holds.
pub proof fn law_shell_reads_quoted_text(s: Seq<char>)
    ensures
        shell_word(quoted(s), false) == Some(s),
{
    let close = seq!['\''];
    lemma_read_escaped(s, close);
    assert(close.skip(1) =~= Seq::<char>::empty());
    assert(shell_word(Seq::<char>::empty(), false) == Some(Seq::<char>::empty()));
    assert(shell_word(close, true) == Some(Seq::<char>::empty()));
    assert(s + Seq::<char>::empty() =~= s);
    assert(quoted(s)[0] == '\'');
    assert(quoted(s).skip(1) =~= escaped(s) + close);
}

} // verus!
