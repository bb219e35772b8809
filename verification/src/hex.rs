//! Hex encoding and decoding, used by every path that accepts `0x…` payloads.
use vstd::prelude::*;
use vstd::string::*;

use crate::text;
use crate::text::{chars_of, concat2, decimal_usize, is_white_space, slice_of};

verus! {

/// A rejected hex string.
#[derive(Debug, Clone, PartialEq, Eq)]
pub enum HexError {
    /// The number of digits is odd.
    OddLength(usize),
    /// A pair of characters that is not two hex digits, and where it stands.
    InvalidDigit { digit: String, position: usize },
}

impl HexError {
    /// The message of the error.
    pub open spec fn message(self) -> Seq<char> {
        match self {
            HexError::OddLength(n) => "hex string must have an even number of digits, got "@
                + text::dec_nat(n as nat),
            HexError::InvalidDigit { digit, position } => "invalid hex digit '"@ + digit@
                + "' at position "@ + text::dec_nat(position as nat),
        }
    }

    /// The message of the error.
    pub fn to_string(&self) -> (r: String)
        ensures
            r@ == self.message(),
    {
        match self {
            HexError::OddLength(n) => concat2(
                "hex string must have an even number of digits, got ",
                decimal_usize(*n).as_str(),
            ),
            HexError::InvalidDigit { digit, position } => {
                let mut out = "invalid hex digit '".to_owned();
                out.append(digit.as_str());
                out.append("' at position ");
                out.append(decimal_usize(*position).as_str());
                out
            },
        }
    }
}

/// Whether a character is a hex digit.
pub open spec fn is_hex_digit(c: char) -> bool {
    '0' <= c <= '9' || 'a' <= c <= 'f' || 'A' <= c <= 'F'
}

/// The value of a hex digit.
pub open spec fn hex_value(c: char) -> int {
    if '0' <= c <= '9' {
        c as int - 48
    } else if 'a' <= c <= 'f' {
        c as int - 87
    } else {
        c as int - 55
    }
}

/// Whether a text carries the prefix of a hex payload.
pub open spec fn prefixed(s: Seq<char>) -> bool {
    text::begins_with(s, "0x"@) || text::begins_with(s, "0X"@)
}

/// The characters of a hex string that count: those behind the prefix that are
/// not white space.
pub open spec fn digits_of(s: Seq<char>) -> Seq<char> {
    (if prefixed(s) {
        s.skip(2)
    } else {
        s
    }).filter(|c: char| !text::white_space(c))
}

/// Whether the `i`-th pair of characters is two hex digits.
pub open spec fn good_pair(d: Seq<char>, i: int) -> bool {
    is_hex_digit(d[2 * i]) && is_hex_digit(d[2 * i + 1])
}

/// The byte that the `i`-th pair of hex digits denotes.
pub open spec fn pair_value(d: Seq<char>, i: int) -> u8 {
    (hex_value(d[2 * i]) * 16 + hex_value(d[2 * i + 1])) as u8
}

/// The bytes that the first `n` pairs of hex digits denote.
pub open spec fn pair_bytes(d: Seq<char>, n: nat) -> Seq<u8> {
    Seq::new(n, |i: int| pair_value(d, i))
}

fn digit_value(c: char) -> (r: Option<u8>)
    ensures
        (match r {
            Some(v) => is_hex_digit(c) && v == hex_value(c) && v < 16,
            None => !is_hex_digit(c),
        }),
{
    if '0' <= c && c <= '9' {
        Some((c as u32 - 48) as u8)
    } else if 'a' <= c && c <= 'f' {
        Some((c as u32 - 87) as u8)
    } else if 'A' <= c && c <= 'F' {
        Some((c as u32 - 55) as u8)
    } else {
        None
    }
}

fn collect_digits(c: &[char], from: usize) -> (r: Vec<char>)
    requires
        from <= c.len(),
    ensures
        r@ == c@.skip(from as int).filter(|x: char| !text::white_space(x)),
{
    let ghost t = c@.skip(from as int);
    let ghost keep = |x: char| !text::white_space(x);
    let mut out: Vec<char> = Vec::new();
    let mut i: usize = from;
    assert(t.take(0) =~= Seq::<char>::empty());
    assert(t.take(0).filter(keep) =~= Seq::<char>::empty()) by {
        reveal(Seq::filter);
    }
    while i < c.len()
        invariant
            from <= i <= c.len(),
            t == c@.skip(from as int),
            keep == (|x: char| !text::white_space(x)),
            out@ == t.take(i - from).filter(keep),
        decreases c.len() - i,
    {
        let x = c[i];
        proof {
            assert(t.take(i - from + 1).drop_last() =~= t.take(i - from));
            assert(t.take(i - from + 1).last() == x);
            reveal(Seq::filter);
        }
        if !is_white_space(x) {
            out.push(x);
        }
        i = i + 1;
    }
    assert(t.take(t.len() as int) =~= t);
    out
}

/// Whether a payload string is meant to be interpreted as hex.
pub fn has_prefix(input: &str) -> (r: bool)
    ensures
        r == prefixed(input@),
{
    text::starts_with(input, "0x") || text::starts_with(input, "0X")
}

/// The answer to a hex string: the bytes it denotes; or that its number of
/// digits is odd; or the first pair that is not two hex digits.
pub open spec fn decoding(input: Seq<char>, r: Result<Vec<u8>, HexError>) -> bool {
    let d = digits_of(input);
    let pairs = d.len() / 2;
    match r {
        Ok(bytes) => d.len() % 2 == 0 && (forall|i: int| 0 <= i < pairs ==> good_pair(d, i))
            && bytes@ == pair_bytes(d, pairs),
        Err(HexError::OddLength(n)) => d.len() % 2 == 1 && n == d.len(),
        Err(HexError::InvalidDigit { digit, position }) => {
            &&& d.len() % 2 == 0
            &&& position % 2 == 0
            &&& position < d.len()
            &&& digit@ == d.subrange(position as int, position + 2)
            &&& !good_pair(d, position as int / 2)
            &&& forall|i: int| 0 <= i < position / 2 ==> good_pair(d, i)
        },
    }
}

/// Decode a hex string into bytes.
///
/// Whitespace is ignored, an optional `0x` or `0X` prefix is stripped. Any
/// invalid digit is an error, never a silently dropped byte.
pub fn decode(input: &str) -> (r: Result<Vec<u8>, HexError>)
    ensures
        decoding(input@, r),
{
    let chars = chars_of(input);
    let from: usize = if has_prefix(input) {
        proof {
            reveal_strlit("0x");
            reveal_strlit("0X");
        }
        2
    } else {
        0
    };
    assert(input@.skip(0) =~= input@);
    let digits = collect_digits(chars.as_slice(), from);
    let ghost d = digits@;
    assert(d == digits_of(input@));
    if digits.len() % 2 != 0 {
        return Err(HexError::OddLength(digits.len()));
    }
    let mut out: Vec<u8> = Vec::new();
    let mut at: usize = 0;
    while at < digits.len()
        invariant
            d == digits@,
            at <= digits.len(),
            at % 2 == 0,
            digits.len() % 2 == 0,
            d == digits_of(input@),
            out@ == pair_bytes(d, (at / 2) as nat),
            forall|i: int| 0 <= i < at / 2 ==> good_pair(d, i),
        decreases digits.len() - at,
    {
        let ghost i = at as int / 2;
        assert(2 * i == at);
        match (digit_value(digits[at]), digit_value(digits[at + 1])) {
            (Some(hi), Some(lo)) => {
                assert(good_pair(d, i));
                out.push(hi * 16 + lo);
                assert(out@ =~= pair_bytes(d, (i + 1) as nat));
                at = at + 2;
            },
            _ => {
                assert(!good_pair(d, i));
                return Err(
                    HexError::InvalidDigit {
                        digit: slice_of(digits.as_slice(), at, at + 2),
                        position: at,
                    },
                );
            },
        }
    }
    Ok(out)
}

/// The upper-case hex digit of a value below sixteen.
pub open spec fn upper_digit(d: int) -> char {
    if d < 10 {
        (48 + d) as char
    } else {
        (55 + d) as char
    }
}

/// The two upper-case hex digits of a byte.
pub open spec fn upper2(b: u8) -> Seq<char> {
    seq![upper_digit(b as int / 16), upper_digit(b as int % 16)]
}

/// Bytes as upper-case hex digits.
pub open spec fn encoded(bytes: Seq<u8>) -> Seq<char>
    decreases bytes.len(),
{
    if bytes.len() == 0 {
        Seq::empty()
    } else {
        encoded(bytes.drop_last()) + upper2(bytes.last())
    }
}

fn upper_digit_of(d: u8) -> (r: char)
    requires
        d < 16,
    ensures
        r == upper_digit(d as int),
{
    if d < 10 {
        (48u8 + d) as char
    } else {
        (55u8 + d) as char
    }
}

fn push_upper2(out: &mut String, b: u8)
    ensures
        final(out)@ == old(out)@ + upper2(b),
{
    out.push(upper_digit_of(b / 16));
    out.push(upper_digit_of(b % 16));
    assert(out@ =~= old(out)@ + upper2(b));
}

/// Encode bytes as uppercase hex without separators.
pub fn encode(bytes: &[u8]) -> (r: String)
    ensures
        r@ == encoded(bytes@),
{
    let mut out = String::new();
    let mut i: usize = 0;
    while i < bytes.len()
        invariant
            i <= bytes.len(),
            out@ == encoded(bytes@.take(i as int)),
        decreases bytes.len() - i,
    {
        assert(bytes@.take(i + 1).drop_last() =~= bytes@.take(i as int));
        assert(bytes@.take(i + 1).last() == bytes@[i as int]);
        push_upper2(&mut out, bytes[i]);
        i = i + 1;
    }
    assert(bytes@.take(bytes@.len() as int) =~= bytes@);
    out
}

/// What stands in front of the `i`-th byte of a dump: two spaces between
/// blocks of sixteen, one space within a block.
pub open spec fn dump_gap(i: int) -> Seq<char> {
    if i == 0 {
        Seq::empty()
    } else if i % 16 == 0 {
        "  "@
    } else {
        " "@
    }
}

/// Bytes as a readable dump.
pub open spec fn dumped(bytes: Seq<u8>) -> Seq<char>
    decreases bytes.len(),
{
    if bytes.len() == 0 {
        Seq::empty()
    } else {
        dumped(bytes.drop_last()) + dump_gap(bytes.len() - 1) + upper2(bytes.last())
    }
}

/// Encode bytes as a readable dump, grouped in blocks of 16 bytes.
pub fn format_dump(bytes: &[u8]) -> (r: String)
    ensures
        r@ == dumped(bytes@),
{
    let mut out = String::new();
    let mut i: usize = 0;
    while i < bytes.len()
        invariant
            i <= bytes.len(),
            out@ == dumped(bytes@.take(i as int)),
        decreases bytes.len() - i,
    {
        assert(bytes@.take(i + 1).drop_last() =~= bytes@.take(i as int));
        assert(bytes@.take(i + 1).last() == bytes@[i as int]);
        if i > 0 {
            if i % 16 == 0 {
                out.append("  ");
            } else {
                out.append(" ");
            }
        } else {
            assert(out@ + dump_gap(0) =~= out@);
        }
        push_upper2(&mut out, bytes[i]);
        i = i + 1;
    }
    assert(bytes@.take(bytes@.len() as int) =~= bytes@);
    out
}

/// What [`decode`] gives on a text, where it succeeds.
pub open spec fn decodes_to(s: Seq<char>, bytes: Seq<u8>) -> bool {
    let d = digits_of(s);
    &&& d.len() == 2 * bytes.len()
    &&& forall|i: int| 0 <= i < bytes.len() ==> good_pair(d, i)
    &&& bytes == pair_bytes(d, bytes.len())
}

proof fn lemma_encoded(bytes: Seq<u8>)
    ensures
        encoded(bytes).len() == 2 * bytes.len(),
        forall|i: int|
            0 <= i < bytes.len() ==> encoded(bytes)[2 * i] == upper2(#[trigger] bytes[i])[0]
                && encoded(bytes)[2 * i + 1] == upper2(bytes[i])[1],
    decreases bytes.len(),
{
    if bytes.len() > 0 {
        let head = bytes.drop_last();
        lemma_encoded(head);
        let e = encoded(bytes);
        assert forall|i: int| 0 <= i < bytes.len() implies e[2 * i] == upper2(
            #[trigger] bytes[i],
        )[0] && e[2 * i + 1] == upper2(bytes[i])[1] by {
            if i < head.len() {
                assert(head[i] == bytes[i]);
                assert(e[2 * i] == encoded(head)[2 * i]);
                assert(e[2 * i + 1] == encoded(head)[2 * i + 1]);
            }
        }
    }
}

/// A filter that keeps every element keeps the sequence.
pub proof fn lemma_filter_all<A>(s: Seq<A>, keep: spec_fn(A) -> bool)
    requires
        forall|i: int| 0 <= i < s.len() ==> keep(#[trigger] s[i]),
    ensures
        s.filter(keep) == s,
    decreases s.len(),
{
    reveal(Seq::filter);
    if s.len() > 0 {
        assert forall|i: int| 0 <= i < s.drop_last().len() implies keep(
            #[trigger] s.drop_last()[i],
        ) by {
            assert(s.drop_last()[i] == s[i]);
        }
        lemma_filter_all(s.drop_last(), keep);
        assert(keep(s[s.len() - 1]));
        assert(s.drop_last().push(s.last()) =~= s);
    } else {
        assert(s.filter(keep) =~= s);
    }
}

proof fn lemma_upper2(b: u8)
    ensures
        is_hex_digit(upper2(b)[0]),
        is_hex_digit(upper2(b)[1]),
        hex_value(upper2(b)[0]) * 16 + hex_value(upper2(b)[1]) == b,
{
}

/// What [`encode`] writes, [`decode`] reads back as the same bytes.
pub proof fn encoded_bytes_decode_to_themselves(bytes: Seq<u8>)
    ensures
        decodes_to(encoded(bytes), bytes),
{
    let e = encoded(bytes);
    lemma_encoded(bytes);
    assert forall|j: int| 0 <= j < e.len() implies is_hex_digit(#[trigger] e[j]) by {
        let i = j / 2;
        let b = bytes[i];
        lemma_upper2(b);
        assert(e[2 * i] == upper2(b)[0]);
        assert(e[2 * i + 1] == upper2(b)[1]);
        assert(j == 2 * i || j == 2 * i + 1);
    }
    reveal_strlit("0x");
    reveal_strlit("0X");
    if prefixed(e) {
        assert(e.take(2)[1] == e[1]);
        assert(is_hex_digit(e[1]));
    }
    let keep = |c: char| !text::white_space(c);
    assert forall|j: int| 0 <= j < e.len() implies keep(#[trigger] e[j]) by {
        assert(is_hex_digit(e[j]));
        reveal(text::white_space);
    }
    lemma_filter_all(e, keep);
    assert(digits_of(e) == e);
    assert forall|i: int| 0 <= i < bytes.len() implies good_pair(e, i) && pair_value(e, i)
        == #[trigger] bytes[i] by {
        lemma_upper2(bytes[i]);
        assert(is_hex_digit(e[2 * i]));
        assert(is_hex_digit(e[2 * i + 1]));
    }
    assert(bytes =~= pair_bytes(e, bytes.len()));
}

} // verus!
