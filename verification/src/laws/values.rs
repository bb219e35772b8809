//! What values look like as text and bytes.
use vstd::prelude::*;
use vstd::string::*;

use crate::clock;
use crate::export;
use crate::hex;
use crate::json;
use crate::text;

verus! {

// ---------------------------------------------------------------------------
// Numbers
// ---------------------------------------------------------------------------

/// A number is written in decimal: `10 * n + d` is `n` with the digit `d` behind,
/// and a negative number has a minus in front.
pub proof fn numbers_are_decimal(n: nat, d: nat)
    requires
        d < 10,
    ensures
        text::dec_nat(d) == seq![('0' as int + d) as char],
        n > 0 ==> text::dec_nat(10 * n + d) == text::dec_nat(n).push(('0' as int + d) as char),
        n > 0 ==> text::dec_int(-(n as int)) == seq!['-'] + text::dec_nat(n),
        text::dec_int(n as int) == text::dec_nat(n),
{
    assert((10 * n + d) / 10 == n && (10 * n + d) % 10 == d);
}

/// A digit more makes a number ten times as large, and adds its own value.
pub proof fn digits_have_their_value(s: Seq<char>, c: char)
    requires
        '0' <= c <= '9',
    ensures
        text::digits_value(Seq::empty()) == 0,
        text::digits_value(s.push(c)) == 10 * text::digits_value(s) + (c as int - '0' as int),
{
    assert(s.push(c).drop_last() =~= s);
}

/// A number is read from decimal digits alone, with a plus in front or none, and
/// up to the largest that is taken.
pub proof fn numbers_are_read(s: Seq<char>, max: nat)
    ensures
        ({
            let digits = s.len() > 0 && forall|i: int| 0 <= i < s.len() ==> '0' <= #[trigger] s[i]
                <= '9';
            &&& digits && text::digits_value(s) <= max ==> text::parse_nat(s, max) == Some(
                text::digits_value(s),
            ) && text::parse_nat(seq!['+'] + s, max) == Some(text::digits_value(s))
            &&& digits && text::digits_value(s) > max ==> text::parse_nat(s, max) is None
            &&& text::parse_nat(s, max) is Some ==> digits || (s[0] == '+' && s.len() > 1
                && forall|i: int| 1 <= i < s.len() ==> '0' <= #[trigger] s[i] <= '9')
            &&& digits && text::digits_value(s) <= 0x7fff_ffff_ffff_ffff ==> text::parse_int(s)
                == Some(text::digits_value(s) as int)
            &&& digits && text::digits_value(s) <= 0x8000_0000_0000_0000 ==> text::parse_int(
                seq!['-'] + s,
            ) == Some(-(text::digits_value(s) as int))
        }),
{
    let digits = s.len() > 0 && forall|i: int| 0 <= i < s.len() ==> '0' <= #[trigger] s[i] <= '9';
    assert((seq!['+'] + s).skip(1) =~= s);
    assert((seq!['-'] + s).skip(1) =~= s);
    if digits {
        assert(text::is_digit(s[0]));
        assert(text::all_digits(s));
    }
    if text::parse_nat(s, max) is Some {
        if s[0] == '+' {
            let t = s.skip(1);
            assert forall|i: int| 1 <= i < s.len() implies '0' <= #[trigger] s[i] <= '9' by {
                assert(text::is_digit(t[i - 1]));
            }
        } else {
            assert forall|i: int| 0 <= i < s.len() implies '0' <= #[trigger] s[i] <= '9' by {
                assert(text::is_digit(s[i]));
            }
        }
    }
}

// ---------------------------------------------------------------------------
// Text
// ---------------------------------------------------------------------------

/// Among the first characters blanks are tab, the line ends and their kin, and the
/// space; no letter, digit or mark is.
pub proof fn blanks_are_blank(c: char)
    ensures
        c < '\u{80}' ==> (text::white_space(c) <==> c == ' ' || c == '\t' || c == '\n' || c
            == '\r' || c == '\u{b}' || c == '\u{c}'),
        c == '\u{a0}' || c == '\u{3000}' ==> text::white_space(c),
        c == '\u{200b}' || c == '\u{feff}' ==> !text::white_space(c),
{
    reveal(text::white_space);
}

/// Trimming drops blanks at both ends, all of them, and nothing else.
pub proof fn trimming_drops_blanks(s: Seq<char>)
    ensures
        exists|i: int, j: int|
            {
                &&& 0 <= i <= j <= s.len()
                &&& text::trimmed(s) == #[trigger] s.subrange(i, j)
                &&& forall|k: int| 0 <= k < i || j <= k < s.len() ==> text::white_space(
                    #[trigger] s[k],
                )
                &&& i < j ==> !text::white_space(s[i]) && !text::white_space(s[j - 1])
            },
{
    let i = start_trimmed(s);
    let t = s.skip(i);
    let n = end_trimmed(t);
    assert(text::trimmed(s) =~= s.subrange(i, i + n));
    assert forall|k: int| 0 <= k < i || i + n <= k < s.len() implies text::white_space(
        #[trigger] s[k],
    ) by {
        if k >= i {
            assert(t[k - i] == s[k]);
        }
    }
    if n > 0 {
        assert(t[0] == s[i]);
        assert(t[n - 1] == s[i + n - 1]);
    }
}

/// What is dropped in front is blank, and no blank stands there afterwards.
proof fn start_trimmed(s: Seq<char>) -> (i: int)
    ensures
        0 <= i <= s.len(),
        text::trim_start(s) == s.skip(i),
        forall|k: int| 0 <= k < i ==> text::white_space(#[trigger] s[k]),
        i < s.len() ==> !text::white_space(s[i]),
    decreases s.len(),
{
    if s.len() > 0 && text::white_space(s[0]) {
        let rest = s.skip(1);
        let i = start_trimmed(rest);
        assert(rest.skip(i) =~= s.skip(i + 1));
        assert forall|k: int| 0 <= k < i + 1 implies text::white_space(#[trigger] s[k]) by {
            if k > 0 {
                assert(rest[k - 1] == s[k]);
            }
        }
        if i + 1 < s.len() {
            assert(rest[i] == s[i + 1]);
        }
        i + 1
    } else {
        assert(s.skip(0) =~= s);
        0
    }
}

/// What is dropped behind is blank, and no blank stands there afterwards.
proof fn end_trimmed(s: Seq<char>) -> (n: int)
    ensures
        0 <= n <= s.len(),
        text::trim_end(s) == s.take(n),
        forall|k: int| n <= k < s.len() ==> text::white_space(#[trigger] s[k]),
        n > 0 ==> !text::white_space(s[n - 1]),
    decreases s.len(),
{
    if s.len() > 0 && text::white_space(s.last()) {
        let rest = s.drop_last();
        let n = end_trimmed(rest);
        assert(rest.take(n) =~= s.take(n));
        assert forall|k: int| n <= k < s.len() implies text::white_space(#[trigger] s[k]) by {
            if k < s.len() - 1 {
                assert(rest[k] == s[k]);
            }
        }
        n
    } else {
        assert(s.take(s.len() as int) =~= s);
        s.len() as int
    }
}

/// Dropping trailing blanks leaves the rest as it is.
pub proof fn trailing_blanks_go(s: Seq<char>)
    ensures
        exists|n: int|
            {
                &&& 0 <= n <= s.len()
                &&& text::trim_end(s) == #[trigger] s.take(n)
                &&& forall|k: int| n <= k < s.len() ==> text::white_space(#[trigger] s[k])
                &&& n > 0 ==> !text::white_space(s[n - 1])
            },
{
    let n = end_trimmed(s);
    assert(text::trim_end(s) == s.take(n));
}

/// The first word runs from the first character that is not blank up to the next
/// blank.
pub proof fn the_first_word_is_a_word(s: Seq<char>)
    ensures
        exists|i: int, j: int|
            {
                &&& 0 <= i <= j <= s.len()
                &&& text::first_word_of(s) == #[trigger] s.subrange(i, j)
                &&& forall|k: int| 0 <= k < i ==> text::white_space(#[trigger] s[k])
                &&& forall|k: int| i <= k < j ==> !text::white_space(#[trigger] s[k])
                &&& i < s.len() ==> i < j
                &&& j < s.len() ==> text::white_space(s[j])
            },
{
    let i = start_trimmed(s);
    let t = s.skip(i);
    let n = word_ends(t);
    text::lemma_until_white(t, n);
    assert(t.take(n) =~= s.subrange(i, i + n));
    assert forall|k: int| i <= k < i + n implies !text::white_space(#[trigger] s[k]) by {
        assert(t[k - i] == s[k]);
    }
    if i < s.len() {
        assert(t[0] == s[i]);
    }
    if i + n < s.len() {
        assert(t[n] == s[i + n]);
    }
}

/// Where the first blank stands.
proof fn word_ends(s: Seq<char>) -> (n: int)
    ensures
        0 <= n <= s.len(),
        forall|k: int| 0 <= k < n ==> !text::white_space(#[trigger] s[k]),
        n < s.len() ==> text::white_space(s[n]),
    decreases s.len(),
{
    if s.len() == 0 || text::white_space(s[0]) {
        0
    } else {
        let rest = s.skip(1);
        let n = word_ends(rest);
        assert forall|k: int| 0 <= k < n + 1 implies !text::white_space(#[trigger] s[k]) by {
            if k > 0 {
                assert(rest[k - 1] == s[k]);
            }
        }
        if n + 1 < s.len() {
            assert(rest[n] == s[n + 1]);
        }
        n + 1
    }
}

/// A text begins with another, ends with it or holds it, where its characters
/// stand there one after the other.
pub proof fn parts_are_found(a: Seq<char>, p: Seq<char>, b: Seq<char>)
    ensures
        text::begins_with(p + b, p),
        text::finishes_with(a + p, p),
        text::occurs_in(a + p + b, p),
        text::begins_with(a, p) ==> a == p + a.skip(p.len() as int),
        text::finishes_with(a, p) ==> a == a.take(a.len() - p.len()) + p,
        text::occurs_in(a, p) ==> exists|i: int| 0 <= i <= a.len() - p.len() && a == #[trigger] a.take(i)
            + p + a.skip(i + p.len()),
{
    assert((p + b).take(p.len() as int) =~= p);
    assert((a + p).skip(a.len() as int) =~= p);
    assert((a + p + b).subrange(a.len() as int, (a.len() + p.len()) as int) =~= p);
    assert(text::occurs_at(a + p + b, p, a.len() as int));
    if text::begins_with(a, p) {
        assert(a =~= a.take(p.len() as int) + a.skip(p.len() as int));
    }
    if text::finishes_with(a, p) {
        let n = a.len() - p.len();
        assert(a =~= a.take(n) + a.skip(n));
    }
    if text::occurs_in(a, p) {
        let i = choose|i: int| text::occurs_at(a, p, i);
        assert(a =~= a.take(i) + a.subrange(i, i + p.len()) + a.skip(i + p.len()));
        assert(a == a.take(i) + p + a.skip(i + p.len()));
    }
}

/// Lower case turns `A` to `Z` into `a` to `z`, character by character, and keeps
/// every other character.
pub proof fn letters_are_lowered(s: Seq<char>, i: int)
    requires
        0 <= i < s.len(),
    ensures
        text::lower(s).len() == s.len(),
        'A' <= s[i] <= 'Z' ==> text::lower(s)[i] as int == s[i] as int - 'A' as int + 'a' as int,
        !('A' <= s[i] <= 'Z') ==> text::lower(s)[i] == s[i],
{
}

/// Joined texts stand in order with the separator between them.
pub proof fn joined_texts_are_separated(
    parts: Seq<Seq<char>>,
    part: Seq<char>,
    separator: Seq<char>,
)
    ensures
        text::joined(Seq::empty(), separator).len() == 0,
        text::joined(seq![part], separator) == part,
        parts.len() > 0 ==> text::joined(parts.push(part), separator) == text::joined(
            parts,
            separator,
        ) + separator + part,
{
    assert(parts.push(part).drop_last() =~= parts);
}

/// A text is split at every separator: none is left in a part, and the parts
/// joined by it give the text again.
pub proof fn split_texts_join_again(s: Seq<char>, c: char)
    ensures
        text::joined(text::split_at_char(s, c), seq![c]) == s,
        text::split_at_char(s, c).len() > 0,
        forall|i: int, j: int|
            0 <= i < text::split_at_char(s, c).len() && 0 <= j < text::split_at_char(s, c)[i].len()
                ==> #[trigger] text::split_at_char(s, c)[i][j] != c,
    decreases s.len(),
{
    let parts = text::split_at_char(s, c);
    if s.len() == 0 {
        assert(text::joined(parts, seq![c]) =~= s);
    } else {
        let before = text::split_at_char(s.drop_last(), c);
        split_texts_join_again(s.drop_last(), c);
        if s.last() == c {
            joined_texts_are_separated(before, Seq::empty(), seq![c]);
            assert(text::joined(parts, seq![c]) =~= s);
        } else {
            let head = before.drop_last();
            let last = before.last();
            assert(head.push(last) =~= before);
            joined_texts_are_separated(head, last, seq![c]);
            joined_texts_are_separated(head, last.push(s.last()), seq![c]);
            assert(parts =~= head.push(last.push(s.last())));
            if head.len() == 0 {
                assert(before =~= seq![last]);
                assert(parts =~= seq![last.push(s.last())]);
            }
            assert(s =~= s.drop_last().push(s.last()));
            assert(text::joined(parts, seq![c]) =~= text::joined(before, seq![c]).push(s.last()));
        }
    }
}

/// Texts stand in the order of their first difference; a text stands before its
/// own continuation.
pub proof fn texts_have_their_order(a: Seq<char>, b: Seq<char>, x: char, y: char, c: Seq<char>)
    requires
        x < y,
    ensures
        text::at_or_before(a, a + b),
        b.len() > 0 ==> !text::at_or_before(a + b, a),
        text::at_or_before(a.push(x) + b, a.push(y) + c),
        !text::at_or_before(a.push(y) + c, a.push(x) + b),
    decreases a.len(),
{
    if a.len() > 0 {
        texts_have_their_order(a.skip(1), b, x, y, c);
        assert((a + b).skip(1) =~= a.skip(1) + b);
        assert((a.push(x) + b).skip(1) =~= a.skip(1).push(x) + b);
        assert((a.push(y) + c).skip(1) =~= a.skip(1).push(y) + c);
    }
}

// ---------------------------------------------------------------------------
// Hex
// ---------------------------------------------------------------------------

/// The digits of hex have the values zero to fifteen, in both cases, and no other
/// character is one.
pub proof fn hex_digits_have_their_value(c: char, d: int)
    requires
        0 <= d < 16,
    ensures
        hex::is_hex_digit(c) <==> '0' <= c <= '9' || 'a' <= c <= 'f' || 'A' <= c <= 'F',
        '0' <= c <= '9' ==> hex::hex_value(c) == c as int - '0' as int,
        'a' <= c <= 'f' ==> hex::hex_value(c) == 10 + c as int - 'a' as int,
        'A' <= c <= 'F' ==> hex::hex_value(c) == 10 + c as int - 'A' as int,
        hex::is_hex_digit(text::hex_digit(d)) && hex::hex_value(text::hex_digit(d)) == d,
        !('A' <= text::hex_digit(d) <= 'Z'),
        hex::is_hex_digit(hex::upper_digit(d)) && hex::hex_value(hex::upper_digit(d)) == d,
        !('a' <= hex::upper_digit(d) <= 'z'),
{
}

/// A byte is written in two digits, the high one first.
pub proof fn bytes_have_two_digits(b: u8, bytes: Seq<u8>)
    ensures
        text::hex2(b).len() == 2,
        hex::hex_value(text::hex2(b)[0]) * 16 + hex::hex_value(text::hex2(b)[1]) == b,
        !('A' <= text::hex2(b)[0] <= 'Z') && !('A' <= text::hex2(b)[1] <= 'Z'),
        hex::encoded(Seq::empty()).len() == 0,
        hex::encoded(bytes.push(b)).len() == hex::encoded(bytes).len() + 2,
        hex::encoded(bytes.push(b)).take(hex::encoded(bytes).len() as int) == hex::encoded(bytes),
        ({
            let s = hex::encoded(bytes.push(b));
            let n = hex::encoded(bytes).len() as int;
            &&& hex::hex_value(s[n]) * 16 + hex::hex_value(s[n + 1]) == b
            &&& !('a' <= s[n] <= 'z') && !('a' <= s[n + 1] <= 'z')
        }),
{
    hex_digits_have_their_value('0', b as int / 16);
    hex_digits_have_their_value('0', b as int % 16);
    assert(bytes.push(b).drop_last() =~= bytes);
    assert((hex::encoded(bytes) + hex::upper2(b)).take(hex::encoded(bytes).len() as int)
        =~= hex::encoded(bytes));
}

/// Two digits of hex, the high one first, stand for a byte.
pub open spec fn stand_for(high: char, low: char, b: u8) -> bool {
    &&& hex::is_hex_digit(high) && hex::is_hex_digit(low)
    &&& b == 16 * hex::hex_value(high) + hex::hex_value(low)
}

/// What is decoded holds a byte for every two digits, the high one first; an odd
/// number of digits and a character that is none are refused, the first such with
/// its place.
pub proof fn pairs_of_digits_are_decoded(input: Seq<char>, r: Result<Vec<u8>, hex::HexError>)
    requires
        hex::decoding(input, r),
    ensures
        ({
            let d = hex::digits_of(input);
            match r {
                Ok(bytes) => d.len() == 2 * bytes@.len() && forall|i: int|
                    0 <= i < bytes@.len() ==> stand_for(
                        d[2 * i],
                        d[2 * i + 1],
                        #[trigger] bytes@[i],
                    ),
                Err(hex::HexError::OddLength(n)) => n == d.len() && n % 2 == 1,
                Err(hex::HexError::InvalidDigit { digit, position }) => {
                    &&& position + 1 < d.len() && d.len() % 2 == 0 && position % 2 == 0
                    &&& digit@ == seq![d[position as int], d[position + 1]]
                    &&& !hex::is_hex_digit(d[position as int]) || !hex::is_hex_digit(
                        d[position + 1],
                    )
                },
            }
        }),
{
    let d = hex::digits_of(input);
    match r {
        Ok(bytes) => {
            assert(bytes@.len() == d.len() / 2);
            assert(d.len() == 2 * bytes@.len());
            assert forall|i: int| 0 <= i < bytes@.len() implies stand_for(
                d[2 * i],
                d[2 * i + 1],
                #[trigger] bytes@[i],
            ) by {
                assert(hex::good_pair(d, i));
                assert(bytes@[i] == hex::pair_value(d, i));
            }
        },
        Err(hex::HexError::InvalidDigit { digit, position }) => {
            assert(d.subrange(position as int, position + 2) =~= seq![
                d[position as int],
                d[position + 1],
            ]);
            assert(2 * (position as int / 2) == position);
        },
        _ => {},
    }
}

/// Digits may stand apart: blanks between them are passed over, and a prefix is
/// not part of them.
pub proof fn blanks_between_digits_are_passed_over(a: Seq<char>, b: Seq<char>, blank: char)
    requires
        text::white_space(blank),
        !hex::prefixed(a.push(blank) + b),
        !hex::prefixed(a + b),
    ensures
        hex::digits_of(a.push(blank) + b) == hex::digits_of(a + b),
        hex::digits_of("0x"@ + (a + b)) == hex::digits_of(a + b),
        hex::digits_of("0X"@ + (a + b)) == hex::digits_of(a + b),
{
    let keep = |c: char| !text::white_space(c);
    Seq::filter_distributes_over_add(a.push(blank), b, keep);
    Seq::filter_distributes_over_add(a, b, keep);
    assert(a.push(blank).drop_last() =~= a);
    assert(a.push(blank).filter(keep) == a.filter(keep)) by {
        reveal(Seq::filter);
    }
    reveal_strlit("0x");
    reveal_strlit("0X");
    hex_prefix_is_two_characters("0x"@ + (a + b));
    hex_prefix_is_two_characters("0X"@ + (a + b));
    assert(("0x"@ + (a + b)).skip(2) =~= a + b);
    assert(("0X"@ + (a + b)).skip(2) =~= a + b);
}

/// A dump shows every byte in two digits, with one space between two, and two
/// after every sixteen.
pub proof fn a_dump_shows_every_byte(bytes: Seq<u8>, b: u8)
    ensures
        hex::dumped(Seq::empty()).len() == 0,
        hex::dumped(bytes.push(b)) == hex::dumped(bytes) + (if bytes.len() == 0 {
            seq![]
        } else if bytes.len() % 16 == 0 {
            seq![' ', ' ']
        } else {
            seq![' ']
        }) + hex::encoded(seq![b]),
{
    reveal_strlit(" ");
    reveal_strlit("  ");
    assert(bytes.push(b).drop_last() =~= bytes);
    assert(seq![b].drop_last() =~= Seq::<u8>::empty());
    assert(hex::encoded(Seq::<u8>::empty()).len() == 0);
    assert(hex::encoded(seq![b]) =~= hex::upper2(b));
    assert("  "@ =~= seq![' ', ' ']);
    assert(" "@ =~= seq![' ']);
    assert(hex::dumped(bytes.push(b)) =~= hex::dumped(bytes) + hex::dump_gap(bytes.len() as int)
        + hex::upper2(b));
}

/// What is wrong with a text in hex is told with the number or the place.
pub proof fn hex_faults_are_told(n: usize, digit: String, position: usize)
    ensures
        (hex::HexError::OddLength(n)).message()
            == "hex string must have an even number of digits, got "@ + text::dec_nat(n as nat),
        (hex::HexError::InvalidDigit { digit, position }).message() == "invalid hex digit '"@
            + digit@ + "' at position "@ + text::dec_nat(position as nat),
{
}

/// A text is marked as hex by `0x` or `0X` in front.
pub proof fn hex_prefix_is_two_characters(s: Seq<char>)
    ensures
        hex::prefixed(s) <==> s.len() >= 2 && s[0] == '0' && (s[1] == 'x' || s[1] == 'X'),
{
    reveal_strlit("0x");
    reveal_strlit("0X");
    if s.len() >= 2 {
        assert(s.take(2)[0] == s[0] && s.take(2)[1] == s[1]);
        if s[0] == '0' && s[1] == 'x' {
            assert(s.take(2) =~= "0x"@);
        }
        if s[0] == '0' && s[1] == 'X' {
            assert(s.take(2) =~= "0X"@);
        }
        if s.take(2) == "0x"@ {
            assert(s.take(2)[1] == 'x');
        }
        if s.take(2) == "0X"@ {
            assert(s.take(2)[1] == 'X');
        }
    }
}

/// `0x00` stands for the single byte zero.
pub proof fn zero_in_hex()
    ensures
        forall|bytes: Vec<u8>| #[trigger] hex::decoding("0x00"@, Ok(bytes)) ==> bytes@ == seq![0u8],
        forall|e: hex::HexError| !#[trigger] hex::decoding("0x00"@, Err(e)),
        hex::prefixed("0x00"@),
{
    reveal_strlit("0x00");
    let s = "0x00"@;
    hex_prefix_is_two_characters(s);
    let t = s.skip(2);
    assert(t =~= seq!['0', '0']);
    let keep = |c: char| !text::white_space(c);
    assert(t.filter(keep) == t) by {
        reveal(text::white_space);
        hex::lemma_filter_all(t, keep);
    }
    let d = hex::digits_of(s);
    assert(d =~= seq!['0', '0']);
    assert(hex::good_pair(d, 0));
    assert(hex::pair_bytes(d, 1) =~= seq![0u8]);
}

// ---------------------------------------------------------------------------
// JSON
// ---------------------------------------------------------------------------

/// In a text of JSON a quote, a backslash and what does not print are escaped;
/// every other character stands for itself, in order, between two quotes.
pub proof fn json_escapes(s: Seq<char>, c: char)
    ensures
        json::json_text(Seq::empty()) == seq!['"', '"'],
        json::json_text(s.push(c)) == json::json_text(s).drop_last() + (if c == '"' || c == '\\' {
            seq!['\\', c]
        } else if c == '\n' {
            seq!['\\', 'n']
        } else if c == '\r' {
            seq!['\\', 'r']
        } else if c == '\t' {
            seq!['\\', 't']
        } else if c == '\u{8}' {
            seq!['\\', 'b']
        } else if c == '\u{c}' {
            seq!['\\', 'f']
        } else if ' ' > c {
            seq!['\\', 'u', '0', '0'] + text::hex2(c as u8)
        } else {
            seq![c]
        }) + seq!['"'],
{
    assert(s.push(c).drop_last() =~= s);
    assert(json::json_text(Seq::empty()) =~= seq!['"', '"']);
    assert(json::json_text(s).drop_last() =~= seq!['"'] + json::json_chars(s));
    assert(json::json_text(s.push(c)) =~= json::json_text(s).drop_last() + json::json_char(c)
        + seq!['"']);
}

/// A list of JSON stands in brackets, its items in order with a comma between.
pub proof fn json_lists(items: Seq<Seq<char>>, item: Seq<char>)
    ensures
        json::json_array(Seq::empty()) == seq!['[', ']'],
        json::json_array(seq![item]) == seq!['['] + item + seq![']'],
        items.len() > 0 ==> json::json_array(items.push(item)) == json::json_array(
            items,
        ).drop_last() + seq![','] + item + seq![']'],
        json::json_texts(items.push(item)) == json::json_texts(items).push(json::json_text(item)),
{
    reveal_strlit("[");
    reveal_strlit("]");
    reveal_strlit(",");
    assert("["@ =~= seq!['[']);
    assert("]"@ =~= seq![']']);
    assert(","@ =~= seq![',']);
    joined_texts_are_separated(items, item, ","@);
    assert(json::json_array(Seq::empty()) =~= seq!['[', ']']);
    assert(json::json_array(items).drop_last() =~= seq!['['] + text::joined(items, ","@));
    if items.len() > 0 {
        assert(json::json_array(items.push(item)) =~= json::json_array(items).drop_last() + seq![
            ',',
        ] + item + seq![']']);
    }
    assert(json::json_texts(items.push(item)) =~= json::json_texts(items).push(
        json::json_text(item),
    ));
}

// ---------------------------------------------------------------------------
// Times
// ---------------------------------------------------------------------------

/// What two digits say.
pub open spec fn two(s: Seq<char>, i: int) -> int {
    10 * (s[i] as int - '0' as int) + (s[i + 1] as int - '0' as int)
}

/// A day has its hours, an hour its minutes, a minute its seconds.
proof fn a_day_is_divided(ms: int)
    ensures
        (((ms / 3_600_000 % 24) * 60 + ms / 60_000 % 60) * 60 + ms / 1_000 % 60) * 1000 + 100 * (ms
            / 100 % 10) + ms % 100 == ms % 86_400_000,
{
    let seconds = ms / 1_000;
    let minutes = ms / 60_000;
    let hours = ms / 3_600_000;
    assert(minutes == seconds / 60);
    assert(hours == minutes / 60);
    assert(ms % 1_000 == 100 * (ms / 100 % 10) + ms % 100);
    let day = hours / 24;
    let rest = ((hours % 24 * 60 + minutes % 60) * 60 + seconds % 60) * 1000 + ms % 1_000;
    assert(ms == 86_400_000 * day + rest);
    assert(ms % 86_400_000 == rest) by (nonlinear_arith)
        requires
            ms == 86_400_000 * day + rest,
            0 <= rest < 86_400_000,
    ;
}

/// Two digits say their number.
proof fn two_digits_say_it(n: int)
    requires
        0 <= n < 100,
    ensures
        two(clock::two_digits(n), 0) == n,
        clock::two_digits(n).len() == 2,
{
}

/// The time of day counts the milliseconds since midnight in hours, minutes,
/// seconds and milliseconds.
pub proof fn a_day_is_counted(ns: int)
    ensures
        ({
            let s = clock::day_time(ns);
            &&& s.len() == 12 && s[2] == ':' && s[5] == ':' && s[8] == '.'
            &&& 0 <= two(s, 0) < 24
            &&& 0 <= two(s, 3) < 60
            &&& 0 <= two(s, 6) < 60
            &&& ((two(s, 0) * 60 + two(s, 3)) * 60 + two(s, 6)) * 1000 + 100 * (s[9] as int
                - '0' as int) + two(s, 10) == (ns / 1_000_000) % 86_400_000
        }),
{
    let s = clock::day_time(ns);
    let ms = ns / 1_000_000;
    let h = ms / 3_600_000 % 24;
    let m = ms / 60_000 % 60;
    let t = ms / 1_000 % 60;
    two_digits_say_it(h);
    two_digits_say_it(m);
    two_digits_say_it(t);
    two_digits_say_it(ms % 100);
    assert(s[0] == clock::two_digits(h)[0] && s[1] == clock::two_digits(h)[1]);
    assert(s[3] == clock::two_digits(m)[0] && s[4] == clock::two_digits(m)[1]);
    assert(s[6] == clock::two_digits(t)[0] && s[7] == clock::two_digits(t)[1]);
    assert(s[10] == clock::two_digits(ms % 100)[0] && s[11] == clock::two_digits(ms % 100)[1]);
    assert(s[9] == text::digit_char((ms / 100 % 10) as nat));
    a_day_is_divided(ms);
}

/// A line without a time shows none; one with a time shows when it came, in the
/// zone of the machine, which lies less than a day off.
pub proof fn times_are_shown_or_not(timestamp_ns: i64, s: Seq<char>)
    requires
        clock::is_screen_time(timestamp_ns, s),
    ensures
        s.len() == (if timestamp_ns <= 0 {
            0int
        } else {
            12
        }),
        timestamp_ns > 0 ==> exists|seconds: int|
            -86_400 < seconds < 86_400 && s == #[trigger] clock::day_time(
                timestamp_ns + seconds * 1_000_000_000,
            ),
        timestamp_ns <= 0 ==> export::record_time(timestamp_ns).len() == 0,
        timestamp_ns > 0 ==> export::record_time(timestamp_ns) == clock::utc_text(
            timestamp_ns,
            "%Y-%m-%dT%H:%M:%S%.9fZ"@,
        ),
{
    if timestamp_ns > 0 {
        let secs = choose|secs: int| #[trigger]
            clock::is_offset(secs) && s == clock::day_time(timestamp_ns + secs * 1_000_000_000);
        assert(s == clock::day_time(timestamp_ns + secs * 1_000_000_000));
    }
}

/// A text in hex stands for bytes where every two of its digits stand for one of
/// them, in order.
pub proof fn hex_stands_for_bytes(s: Seq<char>, bytes: Seq<u8>, i: int)
    requires
        hex::decodes_to(s, bytes),
        0 <= i < bytes.len(),
    ensures
        hex::digits_of(s).len() == 2 * bytes.len(),
        stand_for(hex::digits_of(s)[2 * i], hex::digits_of(s)[2 * i + 1], bytes[i]),
{
    assert(hex::good_pair(hex::digits_of(s), i));
    assert(bytes[i] == hex::pair_value(hex::digits_of(s), i));
}

/// The stamp of a file is a date and a time in digits, eight and six, with an
/// underscore between; the time of day has colons and a point.
pub proof fn stamps_have_their_shape(s: Seq<char>, t: Seq<char>, i: int)
    requires
        clock::is_file_stamp(s),
        clock::is_time_of_day(t),
    ensures
        s.len() >= 15 && s[s.len() - 7] == '_',
        s.len() - 15 <= i < s.len() && i != s.len() - 7 ==> '0' <= s[i] <= '9',
        t.len() == 12 && t[2] == ':' && t[5] == ':' && t[8] == '.',
        0 <= i < 12 && i != 2 && i != 5 && i != 8 ==> '0' <= t[i] <= '9',
{
    if s.len() - 15 <= i < s.len() && i != s.len() - 7 {
        assert(text::is_digit(s[i]));
    }
    if 0 <= i < 12 && i != 2 && i != 5 && i != 8 {
        assert(text::is_digit(t[i]));
    }
}

} // verus!
