//! Base64url without padding, and SHA-256.

use vstd::prelude::*;
use vstd::std_specs::iter::IteratorSpec;
use vstd::string::StrSliceExecFns;
use vstd::utf8::is_ascii_chars;

verus! {

/// The symbol of the URL-safe alphabet that stands for the six bits `v`.
pub open spec fn symbol(v: int) -> char {
    if v < 26 {
        (v + 65) as char
    } else if v < 52 {
        (v + 71) as char
    } else if v < 62 {
        (v - 4) as char
    } else if v == 62 {
        '-'
    } else {
        '_'
    }
}

/// The six bits that a symbol of the URL-safe alphabet stands for.
pub open spec fn symbol_value(c: char) -> Option<int> {
    let n = c as int;
    if 65 <= n <= 90 {
        Some(n - 65)
    } else if 97 <= n <= 122 {
        Some(n - 71)
    } else if 48 <= n <= 57 {
        Some(n + 4)
    } else if c == '-' {
        Some(62)
    } else if c == '_' {
        Some(63)
    } else {
        None
    }
}

/// Whether `c` belongs to the URL-safe alphabet.
pub open spec fn is_symbol(c: char) -> bool {
    symbol_value(c) is Some
}

/// Base64url without padding (RFC 4648, section 5): three bytes give four
/// symbols; a last group of one or two bytes gives two or three symbols,
/// its missing bits taken as zero.
pub open spec fn base64url_spec(bytes: Seq<u8>) -> Seq<char>
    decreases bytes.len(),
{
    if bytes.len() == 0 {
        seq![]
    } else if bytes.len() == 1 {
        seq![symbol(bytes[0] as int / 4), symbol((bytes[0] as int % 4) * 16)]
    } else if bytes.len() == 2 {
        seq![
            symbol(bytes[0] as int / 4),
            symbol((bytes[0] as int % 4) * 16 + bytes[1] as int / 16),
            symbol((bytes[1] as int % 16) * 4),
        ]
    } else {
        seq![
            symbol(bytes[0] as int / 4),
            symbol((bytes[0] as int % 4) * 16 + bytes[1] as int / 16),
            symbol((bytes[1] as int % 16) * 4 + bytes[2] as int / 64),
            symbol(bytes[2] as int % 64),
        ] + base64url_spec(bytes.skip(3))
    }
}

/// The strict inverse: only symbols of the alphabet, no padding, and no
/// stray bits in a last group of two or three symbols.
pub open spec fn base64url_decode_spec(text: Seq<char>) -> Option<Seq<u8>>
    decreases text.len(),
{
    if text.len() == 0 {
        Some(seq![])
    } else if text.len() == 1 {
        None
    } else if text.len() == 2 {
        match (symbol_value(text[0]), symbol_value(text[1])) {
            (Some(a), Some(b)) => if b % 16 == 0 {
                Some(seq![(a * 4 + b / 16) as u8])
            } else {
                None
            },
            _ => None,
        }
    } else if text.len() == 3 {
        match (symbol_value(text[0]), symbol_value(text[1]), symbol_value(text[2])) {
            (Some(a), Some(b), Some(c)) => if c % 4 == 0 {
                Some(seq![(a * 4 + b / 16) as u8, ((b % 16) * 16 + c / 4) as u8])
            } else {
                None
            },
            _ => None,
        }
    } else {
        match (
            symbol_value(text[0]),
            symbol_value(text[1]),
            symbol_value(text[2]),
            symbol_value(text[3]),
            base64url_decode_spec(text.skip(4)),
        ) {
            (Some(a), Some(b), Some(c), Some(d), Some(rest)) => Some(
                seq![
                    (a * 4 + b / 16) as u8,
                    ((b % 16) * 16 + c / 4) as u8,
                    ((c % 4) * 64 + d) as u8,
                ] + rest,
            ),
            _ => None,
        }
    }
}

/// Every six-bit value has a symbol, and the symbol gives the value back.
pub proof fn lemma_symbol_value(v: int)
    requires
        0 <= v < 64,
    ensures
        symbol_value(symbol(v)) == Some(v),
        symbol(v) != '=',
        symbol(v) != '+',
        symbol(v) != '/',
{
}

/// Decoding undoes encoding: `decode(encode(b)) = b` for every byte string.
pub proof fn lemma_decode_encode(bytes: Seq<u8>)
    ensures
        base64url_decode_spec(base64url_spec(bytes)) == Some(bytes),
    decreases bytes.len(),
{
    let text = base64url_spec(bytes);
    if bytes.len() == 0 {
    } else if bytes.len() == 1 {
        let b0 = bytes[0] as int;
        lemma_symbol_value(b0 / 4);
        lemma_symbol_value((b0 % 4) * 16);
        assert(base64url_decode_spec(text).unwrap() =~= bytes);
    } else if bytes.len() == 2 {
        let b0 = bytes[0] as int;
        let b1 = bytes[1] as int;
        lemma_symbol_value(b0 / 4);
        lemma_symbol_value((b0 % 4) * 16 + b1 / 16);
        lemma_symbol_value((b1 % 16) * 4);
        assert(base64url_decode_spec(text).unwrap() =~= bytes);
    } else {
        let b0 = bytes[0] as int;
        let b1 = bytes[1] as int;
        let b2 = bytes[2] as int;
        lemma_symbol_value(b0 / 4);
        lemma_symbol_value((b0 % 4) * 16 + b1 / 16);
        lemma_symbol_value((b1 % 16) * 4 + b2 / 64);
        lemma_symbol_value(b2 % 64);
        lemma_decode_encode(bytes.skip(3));
        assert(text.skip(4) =~= base64url_spec(bytes.skip(3)));
        assert(text.len() >= 4);
        assert(base64url_decode_spec(text).unwrap() =~= bytes);
    }
}

/// An encoded text holds symbols of the URL-safe alphabet only: no `=`
/// padding, no `+` and no `/`.
pub proof fn lemma_encode_alphabet(bytes: Seq<u8>)
    ensures
        forall|i: int|
            0 <= i < base64url_spec(bytes).len() ==> {
                let c = #[trigger] base64url_spec(bytes)[i];
                is_symbol(c) && c != '=' && c != '+' && c != '/'
            },
        is_ascii_chars(base64url_spec(bytes)),
    decreases bytes.len(),
{
    let text = base64url_spec(bytes);
    if bytes.len() == 0 {
    } else if bytes.len() == 1 {
        let b0 = bytes[0] as int;
        lemma_symbol_value(b0 / 4);
        lemma_symbol_value((b0 % 4) * 16);
    } else if bytes.len() == 2 {
        let b0 = bytes[0] as int;
        let b1 = bytes[1] as int;
        lemma_symbol_value(b0 / 4);
        lemma_symbol_value((b0 % 4) * 16 + b1 / 16);
        lemma_symbol_value((b1 % 16) * 4);
    } else {
        let b0 = bytes[0] as int;
        let b1 = bytes[1] as int;
        let b2 = bytes[2] as int;
        lemma_symbol_value(b0 / 4);
        lemma_symbol_value((b0 % 4) * 16 + b1 / 16);
        lemma_symbol_value((b1 % 16) * 4 + b2 / 64);
        lemma_symbol_value(b2 % 64);
        lemma_encode_alphabet(bytes.skip(3));
        let rest = base64url_spec(bytes.skip(3));
        assert forall|i: int| 0 <= i < text.len() implies {
            let c = #[trigger] text[i];
            is_symbol(c) && c != '=' && c != '+' && c != '/'
        } by {
            if i >= 4 {
                assert(text[i] == rest[i - 4]);
            }
        }
    }
}

/// A text that decodes holds symbols of the alphabet only.
pub proof fn lemma_decode_needs_symbols(text: Seq<char>)
    requires
        base64url_decode_spec(text) is Some,
    ensures
        forall|i: int| 0 <= i < text.len() ==> is_symbol(#[trigger] text[i]),
    decreases text.len(),
{
    if text.len() >= 4 {
        lemma_decode_needs_symbols(text.skip(4));
        assert forall|i: int| 0 <= i < text.len() implies is_symbol(#[trigger] text[i]) by {
            if i >= 4 {
                assert(text[i] == text.skip(4)[i - 4]);
            }
        }
    }
}

/// Encodes `input` with `base64::encode_config` under the URL-safe
/// alphabet without padding. The result is the encoding that RFC 4648
/// defines, which `base64url_spec` writes out. base64 panics only where
/// the length of the text does not fit into `usize`, which no slice in
/// memory is long enough for.
#[verifier::external_body]
fn encode_url_safe_no_pad(input: &[u8]) -> (text: String)
    ensures
        text@ == base64url_spec(input@),
{
    base64::encode_config(input, base64::Config::new(base64::CharacterSet::UrlSafe, false))
}

/// Base64url without padding, as every part of a signed request is encoded.
pub fn base64url(input: &[u8]) -> (text: String)
    ensures
        text@ == base64url_spec(input@),
        base64url_decode_spec(text@) == Some(input@),
        forall|i: int| 0 <= i < text@.len() ==> is_symbol(#[trigger] text@[i]),
{
    proof {
        lemma_decode_encode(input@);
        lemma_encode_alphabet(input@);
    }
    encode_url_safe_no_pad(input)
}

/// The six bits of the symbol with ASCII code `b`.
fn value_of(b: u8) -> (v: Option<u8>)
    ensures
        v matches Some(x) ==> symbol_value(b as char) == Some(x as int) && x < 64,
        v is None ==> symbol_value(b as char) is None,
{
    if 65 <= b && b <= 90 {
        Some(b - 65)
    } else if 97 <= b && b <= 122 {
        Some(b - 71)
    } else if 48 <= b && b <= 57 {
        Some(b + 4)
    } else if b == 45 {
        Some(62)
    } else if b == 95 {
        Some(63)
    } else {
        None
    }
}

/// What is decoded once `done` stands for the first `at` symbols of `text`.
spec fn decode_from(text: Seq<char>, at: int, done: Seq<u8>) -> Option<Seq<u8>> {
    match base64url_decode_spec(text.skip(at)) {
        Some(rest) => Some(done + rest),
        None => None,
    }
}

/// Decodes base64url without padding. Anything but a canonical encoding
/// is refused.
pub fn base64url_decode(text: &str) -> (res: Option<Vec<u8>>)
    ensures
        res is Some <==> base64url_decode_spec(text@) is Some,
        res matches Some(bytes) ==> Some(bytes@) == base64url_decode_spec(text@),
{
    if !text.is_ascii() {
        proof {
            if base64url_decode_spec(text@) is Some {
                lemma_decode_needs_symbols(text@);
            }
        }
        return None;
    }
    let raw = text.as_bytes();
    let n: usize = raw.len();
    proof {
        vstd::utf8::is_ascii_chars_encode_utf8(text@);
    }
    let ghost chars = text@;
    assert(chars.skip(0) =~= chars);
    let mut out: Vec<u8> = Vec::new();
    let mut i: usize = 0;
    while n - i >= 4
        invariant
            i <= n,
            chars == text@,
            n == chars.len(),
            n == raw@.len(),
            is_ascii_chars(chars),
            forall|k: int| 0 <= k < n ==> chars[k] as u8 == #[trigger] raw@[k],
            base64url_decode_spec(chars) == decode_from(chars, i as int, out@),
        decreases n - i,
    {
        let ghost tail = chars.skip(i as int);
        assert(tail.skip(4) =~= chars.skip(i + 4));
        assert(tail[0] == raw@[i as int] as char && tail[1] == raw@[i + 1] as char && tail[2]
            == raw@[i + 2] as char && tail[3] == raw@[i + 3] as char);
        let a = value_of(raw[i]);
        let b = value_of(raw[i + 1]);
        let c = value_of(raw[i + 2]);
        let d = value_of(raw[i + 3]);
        match (a, b, c, d) {
            (Some(a), Some(b), Some(c), Some(d)) => {
                let ghost before = out@;
                out.push(a * 4 + b / 16);
                out.push((b % 16) * 16 + c / 4);
                out.push((c % 4) * 64 + d);
                proof {
                    let group = seq![
                        (a * 4 + b / 16) as u8,
                        ((b % 16) * 16 + c / 4) as u8,
                        ((c % 4) * 64 + d) as u8,
                    ];
                    assert(out@ =~= before + group);
                    match base64url_decode_spec(chars.skip(i + 4)) {
                        Some(rest) => {
                            assert(before + (group + rest) =~= out@ + rest);
                        },
                        None => {},
                    }
                }
            },
            _ => {
                return None;
            },
        }
        i += 4;
    }
    let ghost tail = chars.skip(i as int);
    if n - i == 0 {
        assert(out@ + Seq::<u8>::empty() =~= out@);
        Some(out)
    } else if n - i == 1 {
        None
    } else if n - i == 2 {
        assert(tail[0] == raw@[i as int] as char && tail[1] == raw@[i + 1] as char);
        match (value_of(raw[i]), value_of(raw[i + 1])) {
            (Some(a), Some(b)) => {
                if b % 16 == 0 {
                    out.push(a * 4 + b / 16);
                    Some(out)
                } else {
                    None
                }
            },
            _ => None,
        }
    } else {
        assert(tail[0] == raw@[i as int] as char && tail[1] == raw@[i + 1] as char && tail[2]
            == raw@[i + 2] as char);
        match (value_of(raw[i]), value_of(raw[i + 1]), value_of(raw[i + 2])) {
            (Some(a), Some(b), Some(c)) => {
                if c % 4 == 0 {
                    out.push(a * 4 + b / 16);
                    out.push((b % 16) * 16 + c / 4);
                    Some(out)
                } else {
                    None
                }
            },
            _ => None,
        }
    }
}

/// The SHA-256 digest of `data`, as `ring::digest::digest` computes it.
pub uninterp spec fn sha256_spec(data: Seq<u8>) -> Seq<u8>;

/// Hashes `data` with `ring::digest::digest` under `SHA256`. The digest
/// is a function of the data alone and is 32 bytes long.
#[verifier::external_body]
fn digest_sha256(data: &[u8]) -> (digest: Vec<u8>)
    ensures
        digest@ == sha256_spec(data@),
        digest@.len() == 32,
{
    ring::digest::digest(&ring::digest::SHA256, data).as_ref().to_vec()
}

/// The SHA-256 digest of `data`.
pub fn sha256(data: &[u8]) -> (digest: Vec<u8>)
    ensures
        digest@ == sha256_spec(data@),
        digest@.len() == 32,
{
    digest_sha256(data)
}

/// Appends one character with `String::push`.
#[verifier::external_body]
pub(crate) fn push_char(s: &mut String, c: char)
    ensures
        final(s)@ == old(s)@.push(c),
{
    s.push(c)
}

/// Whether two byte strings are the same.
pub fn bytes_equal(a: &[u8], b: &[u8]) -> (same: bool)
    ensures
        same == (a@ == b@),
{
    if a.len() != b.len() {
        return false;
    }
    let mut i: usize = 0;
    while i < a.len()
        invariant
            i <= a.len(),
            a.len() == b.len(),
            a@.take(i as int) == b@.take(i as int),
        decreases a.len() - i,
    {
        if a[i] != b[i] {
            return false;
        }
        i += 1;
        assert(a@.take(i as int) =~= a@.take(i - 1).push(a@[i - 1]));
        assert(b@.take(i as int) =~= b@.take(i - 1).push(b@[i - 1]));
    }
    assert(a@.take(i as int) =~= a@);
    assert(b@.take(i as int) =~= b@);
    true
}

/// Whether `a[from..from + len]` equals `b[at..at + len]`.
pub(crate) fn ranges_equal(a: &[u8], from: usize, b: &[u8], at: usize, len: usize) -> (same: bool)
    requires
        from + len <= a.len(),
        at + len <= b.len(),
    ensures
        same == (a@.subrange(from as int, from + len) == b@.subrange(at as int, at + len)),
{
    let mut i: usize = 0;
    while i < len
        invariant
            i <= len,
            from + len <= a.len(),
            at + len <= b.len(),
            a@.subrange(from as int, from + i) == b@.subrange(at as int, at + i),
        decreases len - i,
    {
        if a[from + i] != b[at + i] {
            assert(a@.subrange(from as int, from + len)[i as int] != b@.subrange(
                at as int,
                at + len,
            )[i as int]);
            return false;
        }
        i += 1;
        assert(a@.subrange(from as int, from + i) =~= a@.subrange(from as int, from + i - 1).push(
            a@[from + i - 1],
        ));
        assert(b@.subrange(at as int, at + i) =~= b@.subrange(at as int, at + i - 1).push(
            b@[at + i - 1],
        ));
    }
    true
}

/// A copy of `bytes[from..to]`.
pub(crate) fn copy_range(bytes: &[u8], from: usize, to: usize) -> (out: Vec<u8>)
    requires
        from <= to <= bytes.len(),
    ensures
        out@ == bytes@.subrange(from as int, to as int),
{
    let mut out: Vec<u8> = Vec::new();
    let mut i: usize = from;
    while i < to
        invariant
            from <= i <= to <= bytes.len(),
            out@ == bytes@.subrange(from as int, i as int),
        decreases to - i,
    {
        out.push(bytes[i]);
        i += 1;
        assert(out@ =~= bytes@.subrange(from as int, i as int));
    }
    out
}

/// Whether `needle` stands somewhere in `hay`, byte after byte.
pub open spec fn occurs_in(needle: Seq<u8>, hay: Seq<u8>) -> bool {
    exists|at: int|
        0 <= at && at + needle.len() <= hay.len() && #[trigger] hay.subrange(
            at,
            at + needle.len(),
        ) == needle
}

/// Whether `needle` stands somewhere in `hay`, byte after byte.
pub fn contains_bytes(hay: &[u8], needle: &[u8]) -> (found: bool)
    ensures
        found == occurs_in(needle@, hay@),
{
    if needle.len() > hay.len() {
        return false;
    }
    let last: usize = hay.len() - needle.len();
    let mut at: usize = 0;
    assert(needle@.subrange(0, needle@.len() as int) =~= needle@);
    loop
        invariant
            at <= last,
            last == hay.len() - needle.len(),
            needle.len() <= hay.len(),
            needle@.subrange(0, needle@.len() as int) == needle@,
            forall|k: int| 0 <= k < at ==> #[trigger] hay@.subrange(k, k + needle@.len()) != needle@,
        decreases last - at,
    {
        if ranges_equal(hay, at, needle, 0, needle.len()) {
            return true;
        }
        if at == last {
            return false;
        }
        at += 1;
    }
}

/// Whether two texts are the same.
pub fn str_equal(a: &str, b: &str) -> (same: bool)
    ensures
        same == (a@ == b@),
{
    proof {
        vstd::utf8::encode_utf8_decode_utf8(a@);
        vstd::utf8::encode_utf8_decode_utf8(b@);
    }
    bytes_equal(a.as_bytes(), b.as_bytes())
}

/// The lower-case form of an ASCII letter; any other character itself.
pub open spec fn ascii_lower(c: char) -> char {
    if 'A' <= c <= 'Z' {
        ((c as int) + 32) as char
    } else {
        c
    }
}

/// The text with its ASCII letters in lower case.
pub open spec fn ascii_lower_text(s: Seq<char>) -> Seq<char> {
    s.map_values(|c: char| ascii_lower(c))
}

/// Whether two texts differ at most in the case of ASCII letters.
pub open spec fn same_ignoring_case(a: Seq<char>, b: Seq<char>) -> bool {
    ascii_lower_text(a) == ascii_lower_text(b)
}

/// The lower-case form of an ASCII letter; any other character itself.
fn lower(c: char) -> (l: char)
    ensures
        l == ascii_lower(c),
{
    if 'A' <= c && c <= 'Z' {
        ((c as u8) + 32) as char
    } else {
        c
    }
}

/// Whether two texts differ at most in the case of ASCII letters.
pub fn str_equal_ignoring_case(a: &str, b: &str) -> (same: bool)
    ensures
        same == same_ignoring_case(a@, b@),
{
    let ghost x = a@;
    let ghost y = b@;
    let mut at: Ghost<int> = Ghost(0);
    let mut left = a.chars();
    let mut right = b.chars();
    loop
        invariant
            x == a@,
            y == b@,
            0 <= at@ <= x.len(),
            at@ <= y.len(),
            left.remaining() == x.skip(at@),
            right.remaining() == y.skip(at@),
            ascii_lower_text(x).take(at@) == ascii_lower_text(y).take(at@),
        decreases x.len() - at@,
    {
        match (left.next(), right.next()) {
            (Some(c), Some(d)) => {
                proof {
                    assert(x.skip(at@)[0] == x[at@]);
                    assert(y.skip(at@)[0] == y[at@]);
                    assert(x.skip(at@).drop_first() =~= x.skip(at@ + 1));
                    assert(y.skip(at@).drop_first() =~= y.skip(at@ + 1));
                }
                if lower(c) != lower(d) {
                    assert(ascii_lower_text(x)[at@] != ascii_lower_text(y)[at@]);
                    return false;
                }
                proof {
                    assert(ascii_lower_text(x).take(at@ + 1) =~= ascii_lower_text(x).take(
                        at@,
                    ).push(ascii_lower(c)));
                    assert(ascii_lower_text(y).take(at@ + 1) =~= ascii_lower_text(y).take(
                        at@,
                    ).push(ascii_lower(d)));
                    at@ = at@ + 1;
                }
            },
            (None, None) => {
                assert(ascii_lower_text(x).take(at@) =~= ascii_lower_text(x));
                assert(ascii_lower_text(y).take(at@) =~= ascii_lower_text(y));
                return true;
            },
            _ => {
                assert(ascii_lower_text(x).len() != ascii_lower_text(y).len());
                return false;
            },
        }
    }
}

/// Whether `text` begins with `prefix`.
pub fn starts_with(text: &str, prefix: &str) -> (begins: bool)
    ensures
        begins == prefix@.is_prefix_of(text@),
{
    let ghost x = text@;
    let ghost y = prefix@;
    let mut at: Ghost<int> = Ghost(0);
    let mut left = text.chars();
    let mut right = prefix.chars();
    loop
        invariant
            x == text@,
            y == prefix@,
            0 <= at@ <= x.len(),
            at@ <= y.len(),
            left.remaining() == x.skip(at@),
            right.remaining() == y.skip(at@),
            x.take(at@) == y.take(at@),
        decreases y.len() - at@,
    {
        match right.next() {
            None => {
                assert(y.take(at@) =~= y);
                assert(x.subrange(0, y.len() as int) =~= x.take(at@));
                return true;
            },
            Some(d) => {
                proof {
                    assert(y.skip(at@)[0] == y[at@]);
                    assert(y.skip(at@).drop_first() =~= y.skip(at@ + 1));
                }
                match left.next() {
                    None => {
                        return false;
                    },
                    Some(c) => {
                        proof {
                            assert(x.skip(at@)[0] == x[at@]);
                            assert(x.skip(at@).drop_first() =~= x.skip(at@ + 1));
                        }
                        if c != d {
                            proof {
                                if y.len() <= x.len() {
                                    assert(x.subrange(0, y.len() as int)[at@] == c);
                                }
                            }
                            return false;
                        }
                        proof {
                            assert(x.take(at@ + 1) =~= x.take(at@).push(c));
                            assert(y.take(at@ + 1) =~= y.take(at@).push(d));
                            at@ = at@ + 1;
                        }
                    },
                }
            },
        }
    }
}

} // verus!
