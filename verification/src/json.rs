//! Writing JSON text: the few forms that ACME requests are made of.

use vstd::prelude::*;
use vstd::std_specs::iter::IteratorSpec;

use crate::util::push_char;

verus! {

/// The lower-case hexadecimal digit of `v`.
pub open spec fn hex_digit(v: int) -> char {
    if v < 10 {
        (v + 48) as char
    } else {
        (v + 87) as char
    }
}

/// How one character stands inside a JSON string (RFC 8259, section 7):
/// the quote, the backslash and the control characters are escaped, the
/// latter by their short form where they have one.
pub open spec fn escape_char(c: char) -> Seq<char> {
    if c == '"' {
        seq!['\\', '"']
    } else if c == '\\' {
        seq!['\\', '\\']
    } else if c == '\n' {
        seq!['\\', 'n']
    } else if c == '\r' {
        seq!['\\', 'r']
    } else if c == '\t' {
        seq!['\\', 't']
    } else if c as int == 8 {
        seq!['\\', 'b']
    } else if c as int == 12 {
        seq!['\\', 'f']
    } else if (c as int) < 32 {
        seq!['\\', 'u', '0', '0', hex_digit(c as int / 16), hex_digit(c as int % 16)]
    } else {
        seq![c]
    }
}

/// The characters of `s` as they stand inside a JSON string.
pub open spec fn escape_spec(s: Seq<char>) -> Seq<char>
    decreases s.len(),
{
    if s.len() == 0 {
        seq![]
    } else {
        escape_spec(s.drop_last()) + escape_char(s.last())
    }
}

/// The JSON string that holds `s`: its escaped characters between quotes.
pub open spec fn quote_spec(s: Seq<char>) -> Seq<char> {
    seq!['"'] + escape_spec(s) + seq!['"']
}

/// Whether a character stands for itself inside a JSON string.
pub open spec fn is_plain(c: char) -> bool {
    c != '"' && c != '\\' && (c as int) >= 32
}

/// A text of plain characters stands for itself inside a JSON string.
pub proof fn lemma_escape_plain(s: Seq<char>)
    requires
        forall|i: int| 0 <= i < s.len() ==> is_plain(#[trigger] s[i]),
    ensures
        escape_spec(s) == s,
    decreases s.len(),
{
    if s.len() > 0 {
        lemma_escape_plain(s.drop_last());
        assert(escape_char(s.last()) =~= seq![s.last()]);
        assert(s.drop_last() + seq![s.last()] =~= s);
    }
}

/// The lower-case hexadecimal digit of `v`.
fn hex_char(v: u8) -> (c: char)
    requires
        v < 16,
    ensures
        c == hex_digit(v as int),
{
    if v < 10 {
        (v + 48) as char
    } else {
        (v + 87) as char
    }
}

/// Appends a backslash and `c` to `out`.
fn push_short(out: &mut String, c: char)
    ensures
        final(out)@ == old(out)@ + seq!['\\', c],
{
    push_char(out, '\\');
    push_char(out, c);
    assert(out@ =~= old(out)@ + seq!['\\', c]);
}

/// Appends the escaped form of `c` to `out`.
fn push_escaped(out: &mut String, c: char)
    ensures
        final(out)@ == old(out)@ + escape_char(c),
{
    let n: u32 = c as u32;
    if c == '"' {
        push_short(out, '"');
    } else if c == '\\' {
        push_short(out, '\\');
    } else if c == '\n' {
        push_short(out, 'n');
    } else if c == '\r' {
        push_short(out, 'r');
    } else if c == '\t' {
        push_short(out, 't');
    } else if n == 8 {
        push_short(out, 'b');
    } else if n == 12 {
        push_short(out, 'f');
    } else if n < 32 {
        let b: u8 = n as u8;
        push_short(out, 'u');
        push_char(out, '0');
        push_char(out, '0');
        push_char(out, hex_char(b / 16));
        push_char(out, hex_char(b % 16));
        assert(out@ =~= old(out)@ + escape_char(c));
    } else {
        push_char(out, c);
        assert(out@ =~= old(out)@ + escape_char(c));
    }
}

/// Appends the JSON string that holds `s` to `out`.
pub fn push_quoted(out: &mut String, s: &str)
    ensures
        final(out)@ == old(out)@ + quote_spec(s@),
{
    push_char(out, '"');
    let ghost start = out@;
    let ghost total = s@;
    let mut at: Ghost<int> = Ghost(0);
    let mut chars = s.chars();
    assert(total.take(0) =~= Seq::<char>::empty());
    loop
        invariant
            0 <= at@ <= total.len(),
            total == s@,
            start == old(out)@.push('"'),
            chars.remaining() == total.skip(at@),
            out@ == start + escape_spec(total.take(at@)),
        ensures
            at@ == total.len(),
        decreases total.len() - at@,
    {
        match chars.next() {
            Some(c) => {
                push_escaped(out, c);
                proof {
                    assert(total.skip(at@)[0] == total[at@]);
                    assert(total.take(at@ + 1).drop_last() =~= total.take(at@));
                    assert(total.skip(at@).drop_first() =~= total.skip(at@ + 1));
                    at@ = at@ + 1;
                }
            },
            None => {
                break;
            },
        }
    }
    assert(total.take(at@) =~= total);
    push_char(out, '"');
    assert(out@ =~= old(out)@ + quote_spec(s@));
}

/// The JSON string that holds `s`.
pub fn quote(s: &str) -> (out: String)
    ensures
        out@ == quote_spec(s@),
{
    let mut out = String::new();
    push_quoted(&mut out, s);
    assert(Seq::<char>::empty() + quote_spec(s@) =~= quote_spec(s@));
    out
}

} // verus!
