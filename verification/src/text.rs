//! Text: the operations on strings that the rest of the crate is written with.
//!
//! Every function here states its result over the sequence of characters that
//! a string holds, so a caller can say exactly which text it produces.
use vstd::prelude::*;
use vstd::string::*;

verus! {

/// `String::push` appends one character to the end of the string.
pub assume_specification[ String::push ](s: &mut String, c: char)
    ensures
        final(s)@ == old(s)@.push(c),
;

/// `==` on string slices is true exactly when both hold the same characters.
pub assume_specification[ <str as PartialEq<str>>::eq ](a: &str, b: &str) -> (r: bool)
    ensures
        r == (a@ == b@),
;

/// Whether two texts are the same.
pub fn same(a: &str, b: &str) -> (r: bool)
    ensures
        r == (a@ == b@),
{
    *a == *b
}

/// The characters of a text as a vector.
pub fn chars_of(s: &str) -> (r: Vec<char>)
    ensures
        r@ == s@,
{
    let mut out: Vec<char> = Vec::new();
    for c in it: s.chars()
        invariant
            out@ == it.seq().take(it.index()),
            it.seq() == s@,
    {
        out.push(c);
    }
    out
}

/// The text made of the given characters.
pub fn string_of(chars: &[char]) -> (r: String)
    ensures
        r@ == chars@,
{
    let mut out = String::new();
    let mut i: usize = 0;
    while i < chars.len()
        invariant
            i <= chars.len(),
            out@ == chars@.take(i as int),
        decreases chars.len() - i,
    {
        out.push(chars[i]);
        i = i + 1;
    }
    assert(chars@.take(chars@.len() as int) =~= chars@);
    out
}

/// The characters from `from` up to `to`, as a text.
pub fn slice_of(chars: &[char], from: usize, to: usize) -> (r: String)
    requires
        from <= to <= chars.len(),
    ensures
        r@ == chars@.subrange(from as int, to as int),
{
    let mut out = String::new();
    let mut i: usize = from;
    while i < to
        invariant
            from <= i <= to <= chars.len(),
            out@ == chars@.subrange(from as int, i as int),
        decreases to - i,
    {
        out.push(chars[i]);
        i = i + 1;
    }
    out
}

/// One text after the other.
pub fn concat2(a: &str, b: &str) -> (r: String)
    ensures
        r@ == a@ + b@,
{
    let mut out = a.to_owned();
    out.append(b);
    out
}

/// Three texts, one after the other.
pub fn concat3(a: &str, b: &str, c: &str) -> (r: String)
    ensures
        r@ == a@ + b@ + c@,
{
    let mut out = a.to_owned();
    out.append(b);
    out.append(c);
    out
}

// ---------------------------------------------------------------------------
// Decimal numbers
// ---------------------------------------------------------------------------

/// Whether a character is one of the ten decimal digits.
pub open spec fn is_digit(c: char) -> bool {
    '0' <= c <= '9'
}

/// The character of one decimal digit.
pub open spec fn digit_char(d: nat) -> char {
    (48 + d) as char
}

/// The value of one decimal digit character.
pub open spec fn digit_value(c: char) -> nat {
    (c as nat - 48) as nat
}

/// A natural number in decimal, without leading zeros.
pub open spec fn dec_nat(n: nat) -> Seq<char>
    decreases n,
{
    if n < 10 {
        seq![digit_char(n)]
    } else {
        dec_nat(n / 10).push(digit_char(n % 10))
    }
}

/// An integer in decimal, with a leading `-` when it is negative.
pub open spec fn dec_int(n: int) -> Seq<char> {
    if n < 0 {
        seq!['-'] + dec_nat((-n) as nat)
    } else {
        dec_nat(n as nat)
    }
}

/// The value that a sequence of decimal digits denotes.
pub open spec fn digits_value(s: Seq<char>) -> nat
    decreases s.len(),
{
    if s.len() == 0 {
        0
    } else {
        digits_value(s.drop_last()) * 10 + digit_value(s.last())
    }
}

/// Whether a text is a nonempty sequence of decimal digits.
pub open spec fn all_digits(s: Seq<char>) -> bool {
    s.len() > 0 && forall|i: int| 0 <= i < s.len() ==> is_digit(#[trigger] s[i])
}

/// What a text denotes as a natural number of at most `max`.
///
/// One leading `+` is allowed; everything else must be digits.
pub open spec fn parse_nat(s: Seq<char>, max: nat) -> Option<nat> {
    let t = if s.len() > 0 && s[0] == '+' {
        s.skip(1)
    } else {
        s
    };
    if all_digits(t) && digits_value(t) <= max {
        Some(digits_value(t))
    } else {
        None
    }
}

/// What a text denotes as a 64-bit signed number.
pub open spec fn parse_int(s: Seq<char>) -> Option<int> {
    if s.len() > 0 && s[0] == '-' {
        if all_digits(s.skip(1)) && digits_value(s.skip(1)) <= 0x8000_0000_0000_0000 {
            Some(-(digits_value(s.skip(1)) as int))
        } else {
            None
        }
    } else {
        match parse_nat(s, 0x7fff_ffff_ffff_ffff) {
            Some(v) => Some(v as int),
            None => None,
        }
    }
}

/// A natural number in decimal.
pub fn decimal(n: u64) -> (r: String)
    ensures
        r@ == dec_nat(n as nat),
    decreases n,
{
    let mut out = if n < 10 {
        String::new()
    } else {
        decimal(n / 10)
    };
    let d: u8 = (n % 10) as u8;
    out.push((48u8 + d) as char);
    assert(out@ =~= dec_nat(n as nat));
    out
}

/// A length in decimal.
pub fn decimal_usize(n: usize) -> (r: String)
    ensures
        r@ == dec_nat(n as nat),
{
    decimal(n as u64)
}

/// A signed number in decimal.
pub fn decimal_i64(n: i64) -> (r: String)
    ensures
        r@ == dec_int(n as int),
{
    if n < 0 {
        let magnitude: u64 = if n == i64::MIN {
            0x8000_0000_0000_0000u64
        } else {
            (-n) as u64
        };
        let digits = decimal(magnitude);
        let mut out = String::new();
        out.push('-');
        out.append(digits.as_str());
        assert(out@ =~= dec_int(n as int));
        out
    } else {
        decimal(n as u64)
    }
}

/// The digits of every natural number are digits, there is at least one, and
/// they denote the number.
pub proof fn lemma_dec_nat(n: nat)
    ensures
        all_digits(dec_nat(n)),
        digits_value(dec_nat(n)) == n,
    decreases n,
{
    if n < 10 {
        assert(dec_nat(n).drop_last() =~= Seq::<char>::empty());
        assert(digits_value(Seq::<char>::empty()) == 0);
        assert(dec_nat(n).last() == digit_char(n));
    } else {
        lemma_dec_nat(n / 10);
        let s = dec_nat(n);
        assert(s.drop_last() =~= dec_nat(n / 10));
        assert(s.last() == digit_char(n % 10));
        assert forall|i: int| 0 <= i < s.len() implies is_digit(#[trigger] s[i]) by {
            if i < s.len() - 1 {
                assert(s[i] == dec_nat(n / 10)[i]);
            }
        }
    }
}

/// A number written in decimal reads back as itself.
pub proof fn decimal_reads_back(n: nat, max: nat)
    requires
        n <= max,
    ensures
        parse_nat(dec_nat(n), max) == Some(n),
{
    lemma_dec_nat(n);
    assert(is_digit(dec_nat(n)[0]));
}

proof fn lemma_digits_value_monotonic(s: Seq<char>, i: int)
    requires
        0 <= i <= s.len(),
    ensures
        digits_value(s.take(i)) <= digits_value(s),
    decreases s.len(),
{
    if i == s.len() {
        assert(s.take(i) =~= s);
    } else {
        lemma_digits_value_monotonic(s.drop_last(), i);
        assert(s.take(i) =~= s.drop_last().take(i));
    }
}

/// The value of the digits from `from` on, when they are digits that denote at
/// most `max`.
fn parse_digits(s: &[char], from: usize, max: u64) -> (r: Option<u64>)
    requires
        from <= s.len(),
    ensures
        ({
            let t = s@.skip(from as int);
            match r {
                Some(v) => all_digits(t) && digits_value(t) == v && v <= max,
                None => !(all_digits(t) && digits_value(t) <= max),
            }
        }),
{
    let ghost t = s@.skip(from as int);
    if from == s.len() {
        return None;
    }
    let mut value: u64 = 0;
    let mut i: usize = from;
    while i < s.len()
        invariant
            from <= i <= s.len(),
            t == s@.skip(from as int),
            value == digits_value(t.take(i - from)),
            value <= max,
            forall|j: int| 0 <= j < i - from ==> is_digit(#[trigger] t[j]),
        decreases s.len() - i,
    {
        let c = s[i];
        assert(t[i - from] == c);
        if !('0' <= c && c <= '9') {
            return None;
        }
        let d: u64 = (c as u32 - 48) as u64;
        proof {
            let next = t.take(i - from + 1);
            assert(next.drop_last() =~= t.take(i - from));
            assert(next.last() == c);
            lemma_digits_value_monotonic(t, i - from + 1);
            assert(digits_value(next) == value * 10 + d);
        }
        if d > max || value > (max - d) / 10 {
            return None;
        }
        value = value * 10 + d;
        i = i + 1;
    }
    assert(t.take(t.len() as int) =~= t);
    Some(value)
}

/// Read a natural number of at most `max`.
pub fn parse_u64(s: &str, max: u64) -> (r: Option<u64>)
    ensures
        (match r {
            Some(v) => parse_nat(s@, max as nat) == Some(v as nat),
            None => parse_nat(s@, max as nat) is None,
        }),
{
    let c = chars_of(s);
    if c.len() > 0 && c[0] == '+' {
        parse_digits(c.as_slice(), 1, max)
    } else {
        assert(s@.skip(0) =~= s@);
        parse_digits(c.as_slice(), 0, max)
    }
}

/// Read a 32-bit natural number.
pub fn parse_u32(s: &str) -> (r: Option<u32>)
    ensures
        (match r {
            Some(v) => parse_nat(s@, u32::MAX as nat) == Some(v as nat),
            None => parse_nat(s@, u32::MAX as nat) is None,
        }),
{
    match parse_u64(s, u32::MAX as u64) {
        Some(v) => Some(v as u32),
        None => None,
    }
}

/// Read a 16-bit natural number.
pub fn parse_u16(s: &str) -> (r: Option<u16>)
    ensures
        (match r {
            Some(v) => parse_nat(s@, u16::MAX as nat) == Some(v as nat),
            None => parse_nat(s@, u16::MAX as nat) is None,
        }),
{
    match parse_u64(s, u16::MAX as u64) {
        Some(v) => Some(v as u16),
        None => None,
    }
}

/// Read a length.
pub fn parse_usize(s: &str) -> (r: Option<usize>)
    ensures
        (match r {
            Some(v) => parse_nat(s@, usize::MAX as nat) == Some(v as nat),
            None => parse_nat(s@, usize::MAX as nat) is None,
        }),
{
    match parse_u64(s, usize::MAX as u64) {
        Some(v) => Some(v as usize),
        None => None,
    }
}

/// Read a 64-bit signed number.
pub fn parse_i64(s: &str) -> (r: Option<i64>)
    ensures
        (match r {
            Some(v) => parse_int(s@) == Some(v as int),
            None => parse_int(s@) is None,
        }),
{
    let c = chars_of(s);
    if c.len() > 0 && c[0] == '-' {
        match parse_digits(c.as_slice(), 1, 0x8000_0000_0000_0000u64) {
            Some(v) => {
                if v == 0x8000_0000_0000_0000u64 {
                    Some(i64::MIN)
                } else {
                    Some(-(v as i64))
                }
            },
            None => None,
        }
    } else {
        match parse_u64(s, 0x7fff_ffff_ffff_ffffu64) {
            Some(v) => Some(v as i64),
            None => None,
        }
    }
}

// ---------------------------------------------------------------------------
// White space
// ---------------------------------------------------------------------------

/// Whether a character has the Unicode property `White_Space`.
#[verifier::opaque]
pub open spec fn white_space(c: char) -> bool {
    ||| '\u{9}' <= c <= '\u{d}'
    ||| c == ' '
    ||| c == '\u{85}'
    ||| c == '\u{a0}'
    ||| c == '\u{1680}'
    ||| '\u{2000}' <= c <= '\u{200a}'
    ||| c == '\u{2028}'
    ||| c == '\u{2029}'
    ||| c == '\u{202f}'
    ||| c == '\u{205f}'
    ||| c == '\u{3000}'
}

/// Whether a character is white space.
pub fn is_white_space(c: char) -> (r: bool)
    ensures
        r == white_space(c),
{
    reveal(white_space);
    ('\u{9}' <= c && c <= '\u{d}') || c == ' ' || c == '\u{85}' || c == '\u{a0}' || c == '\u{1680}'
        || ('\u{2000}' <= c && c <= '\u{200a}') || c == '\u{2028}' || c == '\u{2029}' || c
        == '\u{202f}' || c == '\u{205f}' || c == '\u{3000}'
}

/// A text without its leading white space.
pub open spec fn trim_start(s: Seq<char>) -> Seq<char>
    decreases s.len(),
{
    if s.len() > 0 && white_space(s[0]) {
        trim_start(s.skip(1))
    } else {
        s
    }
}

/// A text without its trailing white space.
pub open spec fn trim_end(s: Seq<char>) -> Seq<char>
    decreases s.len(),
{
    if s.len() > 0 && white_space(s.last()) {
        trim_end(s.drop_last())
    } else {
        s
    }
}

/// What is left is the beginning of the text.
pub proof fn lemma_trim_end_prefix(s: Seq<char>)
    ensures
        trim_end(s).is_prefix_of(s),
    decreases s.len(),
{
    if s.len() > 0 && white_space(s.last()) {
        lemma_trim_end_prefix(s.drop_last());
    }
}

/// A text without its leading and its trailing white space.
pub open spec fn trimmed(s: Seq<char>) -> Seq<char> {
    trim_end(trim_start(s))
}

fn leading_white(c: &[char]) -> (r: usize)
    ensures
        r <= c.len(),
        trim_start(c@) == c@.skip(r as int),
{
    let mut from: usize = 0;
    assert(c@.skip(0) =~= c@);
    while from < c.len() && is_white_space(c[from])
        invariant
            from <= c.len(),
            trim_start(c@) == trim_start(c@.skip(from as int)),
        decreases c.len() - from,
    {
        assert(c@.skip(from as int).skip(1) =~= c@.skip(from + 1));
        from = from + 1;
    }
    from
}

fn trailing_white(c: &[char], from: usize) -> (r: usize)
    requires
        from <= c.len(),
    ensures
        from <= r <= c.len(),
        trim_end(c@.skip(from as int)) == c@.subrange(from as int, r as int),
{
    let mut to: usize = c.len();
    assert(c@.skip(from as int) =~= c@.subrange(from as int, to as int));
    while to > from && is_white_space(c[to - 1])
        invariant
            from <= to <= c.len(),
            trim_end(c@.skip(from as int)) == trim_end(c@.subrange(from as int, to as int)),
        decreases to,
    {
        assert(c@.subrange(from as int, to as int).drop_last() =~= c@.subrange(
            from as int,
            to - 1,
        ));
        to = to - 1;
    }
    to
}

/// A text without its leading and its trailing white space.
pub fn trim(s: &str) -> (r: String)
    ensures
        r@ == trimmed(s@),
{
    let c = chars_of(s);
    let from = leading_white(c.as_slice());
    let to = trailing_white(c.as_slice(), from);
    slice_of(c.as_slice(), from, to)
}

/// A text without its trailing white space.
pub fn without_trailing_white(s: &str) -> (r: String)
    ensures
        r@ == trim_end(s@),
{
    let c = chars_of(s);
    let to = trailing_white(c.as_slice(), 0);
    assert(c@.skip(0) =~= c@);
    slice_of(c.as_slice(), 0, to)
}

/// Whether a text holds white space alone.
pub fn is_blank(s: &str) -> (r: bool)
    ensures
        r == (trimmed(s@).len() == 0),
{
    let t = trim(s);
    let c = chars_of(t.as_str());
    c.len() == 0
}

/// The bytes of a text.
pub fn bytes_of(s: &str) -> (r: Vec<u8>)
    ensures
        r@ == vstd::utf8::encode_utf8(s@),
{
    let mut out: Vec<u8> = Vec::new();
    out.extend_from_slice(s.as_bytes());
    assert(out@ =~= vstd::utf8::encode_utf8(s@));
    out
}

/// The characters before the first white space.
pub open spec fn until_white(s: Seq<char>) -> Seq<char>
    decreases s.len(),
{
    if s.len() == 0 || white_space(s[0]) {
        Seq::empty()
    } else {
        seq![s[0]] + until_white(s.skip(1))
    }
}

/// The first word of a text; empty where there is none.
pub open spec fn first_word_of(s: Seq<char>) -> Seq<char> {
    until_white(trim_start(s))
}

/// The first word ends at the first white space.
pub proof fn lemma_until_white(s: Seq<char>, n: int)
    requires
        0 <= n <= s.len(),
        forall|i: int| 0 <= i < n ==> !white_space(#[trigger] s[i]),
        n == s.len() || white_space(s[n]),
    ensures
        until_white(s) == s.take(n),
    decreases n,
{
    if n == 0 {
        assert(s.take(0) =~= Seq::<char>::empty());
    } else {
        assert(!white_space(s[0]));
        lemma_until_white(s.skip(1), n - 1);
        assert(seq![s[0]] + s.skip(1).take(n - 1) =~= s.take(n));
    }
}

/// The first word of a text; empty where there is none.
pub fn first_word(s: &str) -> (r: String)
    ensures
        r@ == first_word_of(s@),
{
    let c = chars_of(s);
    let from = leading_white(c.as_slice());
    let ghost t = c@.skip(from as int);
    let mut to: usize = from;
    while to < c.len() && !is_white_space(c[to])
        invariant
            from <= to <= c.len(),
            t == c@.skip(from as int),
            forall|i: int| 0 <= i < to - from ==> !white_space(#[trigger] t[i]),
        decreases c.len() - to,
    {
        assert(t[to - from] == c@[to as int]);
        to = to + 1;
    }
    proof {
        if to < c.len() {
            assert(t[to - from] == c@[to as int]);
        }
        lemma_until_white(t, to - from);
        assert(t.take(to - from) =~= c@.subrange(from as int, to as int));
    }
    slice_of(c.as_slice(), from, to)
}

// ---------------------------------------------------------------------------
// Parts of a text
// ---------------------------------------------------------------------------

/// Whether a text begins with another.
pub open spec fn begins_with(s: Seq<char>, p: Seq<char>) -> bool {
    p.len() <= s.len() && s.take(p.len() as int) == p
}

/// Whether a text ends with another.
pub open spec fn finishes_with(s: Seq<char>, p: Seq<char>) -> bool {
    p.len() <= s.len() && s.skip(s.len() - p.len()) == p
}

/// Whether `needle` stands in `s` at position `i`.
pub open spec fn occurs_at(s: Seq<char>, needle: Seq<char>, i: int) -> bool {
    0 <= i <= s.len() - needle.len() && s.subrange(i, i + needle.len()) == needle
}

/// Whether `needle` stands anywhere in `s`.
pub open spec fn occurs_in(s: Seq<char>, needle: Seq<char>) -> bool {
    exists|i: int| occurs_at(s, needle, i)
}

/// Whether the characters of `s` from `at` on begin with `p`.
pub fn matches_at(s: &[char], at: usize, p: &[char]) -> (r: bool)
    requires
        at <= s.len(),
    ensures
        r == occurs_at(s@, p@, at as int),
{
    if p.len() > s.len() - at {
        return false;
    }
    let mut i: usize = 0;
    while i < p.len()
        invariant
            i <= p.len(),
            p.len() <= s.len() - at,
            at <= s.len(),
            forall|j: int| 0 <= j < i ==> s@[at + j] == p@[j],
        decreases p.len() - i,
    {
        if s[at + i] != p[i] {
            assert(s@.subrange(at as int, at + p@.len())[i as int] != p@[i as int]);
            return false;
        }
        i = i + 1;
    }
    assert(s@.subrange(at as int, at + p@.len()) =~= p@);
    true
}

/// Whether `s` begins with `p`.
pub fn starts_with(s: &str, p: &str) -> (r: bool)
    ensures
        r == begins_with(s@, p@),
{
    let a = chars_of(s);
    let b = chars_of(p);
    proof {
        if p@.len() <= s@.len() {
            assert(s@.subrange(0, p@.len() as int) =~= s@.take(p@.len() as int));
        }
    }
    matches_at(a.as_slice(), 0, b.as_slice())
}

/// Whether `s` ends with `p`.
pub fn ends_with(s: &str, p: &str) -> (r: bool)
    ensures
        r == finishes_with(s@, p@),
{
    let a = chars_of(s);
    let b = chars_of(p);
    if b.len() > a.len() {
        return false;
    }
    let at: usize = a.len() - b.len();
    assert(s@.subrange(at as int, at + p@.len()) =~= s@.skip(at as int));
    matches_at(a.as_slice(), at, b.as_slice())
}

/// Whether `needle` stands anywhere in `s`.
pub fn contains(s: &str, needle: &str) -> (r: bool)
    ensures
        r == occurs_in(s@, needle@),
{
    let a = chars_of(s);
    let b = chars_of(needle);
    let mut i: usize = 0;
    while i < a.len()
        invariant
            i <= a.len(),
            a@ == s@,
            b@ == needle@,
            forall|j: int| 0 <= j < i ==> !occurs_at(s@, needle@, j),
        decreases a.len() - i,
    {
        if matches_at(a.as_slice(), i, b.as_slice()) {
            return true;
        }
        i = i + 1;
    }
    matches_at(a.as_slice(), i, b.as_slice())
}

/// The position of the first `c`, if there is one.
pub fn find_char(s: &[char], from: usize, c: char) -> (r: Option<usize>)
    requires
        from <= s.len(),
    ensures
        (match r {
            Some(i) => from <= i < s.len() && s@[i as int] == c && forall|j: int|
                from <= j < i ==> s@[j] != c,
            None => forall|j: int| from <= j < s.len() ==> s@[j] != c,
        }),
{
    let mut i: usize = from;
    while i < s.len()
        invariant
            from <= i <= s.len(),
            forall|j: int| from <= j < i ==> s@[j] != c,
        decreases s.len() - i,
    {
        if s[i] == c {
            return Some(i);
        }
        i = i + 1;
    }
    None
}

/// A character with the letters `A` to `Z` turned into `a` to `z`.
pub open spec fn ascii_lower(c: char) -> char {
    if 'A' <= c <= 'Z' {
        (c as nat + 32) as char
    } else {
        c
    }
}

/// A text with the letters `A` to `Z` turned into `a` to `z`.
pub open spec fn lower(s: Seq<char>) -> Seq<char> {
    s.map_values(|c: char| ascii_lower(c))
}

/// A text with the letters `A` to `Z` turned into `a` to `z`.
pub fn to_lower(s: &str) -> (r: String)
    ensures
        r@ == lower(s@),
{
    let c = chars_of(s);
    let mut out = String::new();
    let mut i: usize = 0;
    while i < c.len()
        invariant
            i <= c.len(),
            c@ == s@,
            out@ == lower(s@).take(i as int),
        decreases c.len() - i,
    {
        let x = c[i];
        if 'A' <= x && x <= 'Z' {
            let b: u8 = x as u8;
            out.push((b + 32) as char);
        } else {
            out.push(x);
        }
        assert(lower(s@).take(i + 1) =~= lower(s@).take(i as int).push(ascii_lower(x)));
        i = i + 1;
    }
    assert(lower(s@).take(s@.len() as int) =~= lower(s@));
    out
}

/// The characters of each text in a list.
pub open spec fn texts(v: Seq<String>) -> Seq<Seq<char>> {
    v.map_values(|s: String| s@)
}

/// Several texts with a separator between each two.
pub open spec fn joined(parts: Seq<Seq<char>>, sep: Seq<char>) -> Seq<char>
    decreases parts.len(),
{
    if parts.len() == 0 {
        Seq::empty()
    } else if parts.len() == 1 {
        parts[0]
    } else {
        joined(parts.drop_last(), sep) + sep + parts.last()
    }
}

/// Several texts with a separator between each two.
pub fn join(parts: &Vec<String>, sep: &str) -> (r: String)
    ensures
        r@ == joined(texts(parts@), sep@),
{
    let mut out = String::new();
    let mut i: usize = 0;
    while i < parts.len()
        invariant
            i <= parts.len(),
            out@ == joined(texts(parts@).take(i as int), sep@),
        decreases parts.len() - i,
    {
        let ghost before = texts(parts@).take(i as int);
        let ghost after = texts(parts@).take(i + 1);
        if i > 0 {
            out.append(sep);
        }
        out.append(parts[i].as_str());
        proof {
            assert(after.drop_last() =~= before);
            assert(after.last() == parts@[i as int]@);
            if i == 0 {
                assert(before =~= Seq::<Seq<char>>::empty());
                assert(out@ =~= after[0]);
            }
        }
        i = i + 1;
    }
    assert(texts(parts@).take(parts@.len() as int) =~= texts(parts@));
    out
}

/// A text cut at every `c`; there is always at least one part.
pub open spec fn split_at_char(s: Seq<char>, c: char) -> Seq<Seq<char>>
    decreases s.len(),
{
    if s.len() == 0 {
        seq![Seq::empty()]
    } else if s.last() == c {
        split_at_char(s.drop_last(), c).push(Seq::empty())
    } else {
        let parts = split_at_char(s.drop_last(), c);
        parts.drop_last().push(parts.last().push(s.last()))
    }
}

/// A text without `c` is its own only part.
pub proof fn lemma_split_none(s: Seq<char>, c: char)
    requires
        forall|i: int| 0 <= i < s.len() ==> #[trigger] s[i] != c,
    ensures
        split_at_char(s, c) == seq![s],
    decreases s.len(),
{
    if s.len() > 0 {
        let head = s.drop_last();
        assert forall|i: int| 0 <= i < head.len() implies #[trigger] head[i] != c by {
            assert(head[i] == s[i]);
        }
        lemma_split_none(head, c);
        assert(s.last() == s[s.len() - 1]);
        assert(head.push(s.last()) =~= s);
        assert(split_at_char(s, c) =~= seq![s]);
    } else {
        assert(s =~= Seq::<char>::empty());
    }
}

/// Two texts with `c` between them have the parts of the one and then those of
/// the other.
pub proof fn lemma_split_add(a: Seq<char>, b: Seq<char>, c: char)
    ensures
        split_at_char(a.push(c) + b, c) == split_at_char(a, c) + split_at_char(b, c),
        split_at_char(b, c).len() > 0,
    decreases b.len(),
{
    let s = a.push(c) + b;
    if b.len() == 0 {
        assert(s =~= a.push(c));
        assert(s.drop_last() =~= a);
        assert(split_at_char(s, c) =~= split_at_char(a, c) + split_at_char(b, c));
    } else {
        let head = b.drop_last();
        lemma_split_add(a, head, c);
        assert(s.drop_last() =~= a.push(c) + head);
        assert(s.last() == b.last());
        let parts = split_at_char(a, c) + split_at_char(head, c);
        assert(parts.last() == split_at_char(head, c).last());
        assert(parts.drop_last() =~= split_at_char(a, c) + split_at_char(head, c).drop_last());
        assert(split_at_char(s, c) =~= split_at_char(a, c) + split_at_char(b, c));
    }
}

/// Cut a text at every `c`.
pub fn split(s: &str, c: char) -> (r: Vec<String>)
    ensures
        texts(r@) == split_at_char(s@, c),
        r@.len() > 0,
{
    let chars = chars_of(s);
    let mut out: Vec<String> = Vec::new();
    let mut part = String::new();
    let mut i: usize = 0;
    assert(s@.take(0) =~= Seq::<char>::empty());
    assert(texts(out@).push(part@) =~= seq![Seq::<char>::empty()]);
    while i < chars.len()
        invariant
            i <= chars.len(),
            chars@ == s@,
            texts(out@).push(part@) == split_at_char(s@.take(i as int), c),
        decreases chars.len() - i,
    {
        let ghost before = texts(out@).push(part@);
        let x = chars[i];
        assert(s@.take(i + 1).drop_last() =~= s@.take(i as int));
        assert(s@.take(i + 1).last() == x);
        if x == c {
            let ghost done = part@;
            let ghost had = texts(out@);
            out.push(part);
            part = String::new();
            assert(texts(out@) =~= had.push(done));
        } else {
            part.push(x);
            assert(before.drop_last() =~= texts(out@));
        }
        i = i + 1;
    }
    assert(s@.take(s@.len() as int) =~= s@);
    let ghost had = texts(out@);
    let ghost done = part@;
    out.push(part);
    assert(texts(out@) =~= had.push(done));
    out
}

// ---------------------------------------------------------------------------
// Order
// ---------------------------------------------------------------------------

/// Whether a text stands at or before another: the first character in which
/// they differ decides, and a text stands before every longer one that begins
/// with it.
pub open spec fn at_or_before(a: Seq<char>, b: Seq<char>) -> bool
    decreases a.len(),
{
    if a.len() == 0 {
        true
    } else if b.len() == 0 {
        false
    } else if a[0] == b[0] {
        at_or_before(a.skip(1), b.skip(1))
    } else {
        a[0] < b[0]
    }
}

/// Every text stands at or before itself.
pub proof fn lemma_order_reflexive(a: Seq<char>)
    ensures
        at_or_before(a, a),
    decreases a.len(),
{
    if a.len() > 0 {
        lemma_order_reflexive(a.skip(1));
    }
}

/// Of two texts, one stands at or before the other.
pub proof fn lemma_order_total(a: Seq<char>, b: Seq<char>)
    ensures
        at_or_before(a, b) || at_or_before(b, a),
        at_or_before(a, b) && at_or_before(b, a) ==> a == b,
    decreases a.len(),
{
    if a.len() > 0 && b.len() > 0 && a[0] == b[0] {
        lemma_order_total(a.skip(1), b.skip(1));
        if at_or_before(a, b) && at_or_before(b, a) {
            assert(a =~= seq![a[0]] + a.skip(1));
            assert(b =~= seq![b[0]] + b.skip(1));
        }
    } else if a.len() == 0 && b.len() == 0 {
        assert(a =~= b);
    }
}

/// The order of texts is transitive.
pub proof fn lemma_order_transitive(a: Seq<char>, b: Seq<char>, c: Seq<char>)
    requires
        at_or_before(a, b),
        at_or_before(b, c),
    ensures
        at_or_before(a, c),
    decreases a.len(),
{
    if a.len() > 0 && b.len() > 0 && c.len() > 0 && a[0] == b[0] && b[0] == c[0] {
        lemma_order_transitive(a.skip(1), b.skip(1), c.skip(1));
    }
}

fn stands_before_from(a: &[char], b: &[char], i: usize) -> (r: bool)
    requires
        i <= a.len(),
        i <= b.len(),
    ensures
        r == at_or_before(a@.skip(i as int), b@.skip(i as int)),
    decreases a.len() - i,
{
    if i == a.len() {
        return true;
    }
    if i == b.len() {
        return false;
    }
    assert(a@.skip(i as int).skip(1) =~= a@.skip(i + 1));
    assert(b@.skip(i as int).skip(1) =~= b@.skip(i + 1));
    if a[i] == b[i] {
        stands_before_from(a, b, i + 1)
    } else {
        a[i] < b[i]
    }
}

/// Whether a text stands at or before another.
pub fn stands_before(a: &str, b: &str) -> (r: bool)
    ensures
        r == at_or_before(a@, b@),
{
    let x = chars_of(a);
    let y = chars_of(b);
    assert(a@.skip(0) =~= a@);
    assert(b@.skip(0) =~= b@);
    stands_before_from(x.as_slice(), y.as_slice(), 0)
}

/// Whether a list of texts is in order.
pub open spec fn in_order(v: Seq<String>) -> bool {
    forall|i: int, j: int|
        0 <= i <= j < v.len() ==> at_or_before(#[trigger] v[i]@, #[trigger] v[j]@)
}

/// Put a text into a list that is in order.
fn insert_in_order(v: &mut Vec<String>, s: String)
    requires
        in_order(old(v)@),
    ensures
        in_order(final(v)@),
        exists|k: int| 0 <= k <= old(v)@.len() && final(v)@ == old(v)@.insert(k, s),
{
    let mut k: usize = 0;
    while k < v.len() && !stands_before(s.as_str(), v[k].as_str())
        invariant
            k <= v.len(),
            v@ == old(v)@,
            forall|i: int| 0 <= i < k ==> !at_or_before(s@, #[trigger] v@[i]@),
        decreases v.len() - k,
    {
        k = k + 1;
    }
    let ghost before = v@;
    v.insert(k, s);
    proof {
        assert forall|i: int, j: int| 0 <= i <= j < v@.len() implies at_or_before(
            #[trigger] v@[i]@,
            #[trigger] v@[j]@,
        ) by {
            lemma_order_reflexive(s@);
            if i < k && j == k {
                lemma_order_total(s@, before[i]@);
            } else if i == k && j > k {
                assert(at_or_before(s@, before[k as int]@));
                lemma_order_transitive(s@, before[k as int]@, before[j - 1]@);
            }
        }
        assert(v@ == before.insert(k as int, s));
    }
}

/// Put texts in order.
pub fn sorted(v: Vec<String>) -> (r: Vec<String>)
    ensures
        in_order(r@),
        r@.to_multiset() == v@.to_multiset(),
        r@.len() == v@.len(),
{
    let mut out: Vec<String> = Vec::new();
    let mut i: usize = 0;
    assert(v@.take(0) =~= Seq::<String>::empty());
    while i < v.len()
        invariant
            i <= v.len(),
            in_order(out@),
            out@.to_multiset() == v@.take(i as int).to_multiset(),
            out@.len() == i,
        decreases v.len() - i,
    {
        let ghost before = out@;
        insert_in_order(&mut out, v[i].clone());
        proof {
            let s = v@[i as int];
            let k = choose|k: int| 0 <= k <= before.len() && out@ == before.insert(k, s);
            before.insert_ensures(k, s);
            assert(v@.take(i + 1) =~= v@.take(i as int).push(s));
            v@.take(i as int).to_multiset_ensures();
            before.to_multiset_ensures();
            vstd::seq_lib::to_multiset_insert(before, k, s);
        }
        i = i + 1;
    }
    assert(v@.take(v@.len() as int) =~= v@);
    out
}

// ---------------------------------------------------------------------------
// Hexadecimal digits
// ---------------------------------------------------------------------------

/// The lower-case hexadecimal digit of a value below sixteen.
pub open spec fn hex_digit(d: int) -> char {
    if d < 10 {
        (48 + d) as char
    } else {
        (87 + d) as char
    }
}

/// The two lower-case hexadecimal digits of a byte.
pub open spec fn hex2(b: u8) -> Seq<char> {
    seq![hex_digit(b as int / 16), hex_digit(b as int % 16)]
}

/// The lower-case hexadecimal digit of a value below sixteen.
pub fn hex_digit_of(d: u8) -> (r: char)
    requires
        d < 16,
    ensures
        r == hex_digit(d as int),
{
    if d < 10 {
        (48u8 + d) as char
    } else {
        (87u8 + d) as char
    }
}

/// Append the two lower-case hexadecimal digits of a byte.
pub fn push_hex2(out: &mut String, b: u8)
    ensures
        final(out)@ == old(out)@ + hex2(b),
{
    out.push(hex_digit_of(b / 16));
    out.push(hex_digit_of(b % 16));
    assert(out@ =~= old(out)@ + hex2(b));
}

// ---------------------------------------------------------------------------
// Lower case
// ---------------------------------------------------------------------------

/// A text in lower case, as `str::to_lowercase` writes it.
pub uninterp spec fn lowercase_of(s: Seq<char>) -> Seq<char>;

/// Whether a text is ASCII throughout.
pub open spec fn is_ascii(s: Seq<char>) -> bool {
    forall|i: int| 0 <= i < s.len() ==> #[trigger] s[i] < '\u{80}'
}

/// `str::to_lowercase`: a text in lower case. For letters outside ASCII nothing
/// is claimed beyond this name.
#[verifier::external_body]
pub(crate) fn to_lowercase(s: &str) -> (r: String)
    ensures
        r@ == lowercase_of(s@),
        is_ascii(s@) ==> r@ == lower(s@),
{
    s.to_lowercase()
}

// ---------------------------------------------------------------------------
// Bytes and text
// ---------------------------------------------------------------------------

/// What `String::from_utf8_lossy` makes of bytes that are not UTF-8 throughout.
pub uninterp spec fn utf8_replaced(bytes: Seq<u8>) -> Seq<char>;

/// The text that some bytes encode, with every part that is not UTF-8 replaced.
pub open spec fn utf8_lossy(bytes: Seq<u8>) -> Seq<char> {
    if vstd::utf8::valid_utf8(bytes) {
        vstd::utf8::decode_utf8(bytes)
    } else {
        utf8_replaced(bytes)
    }
}

/// `String::from_utf8_lossy`: the text that the bytes encode, with every part
/// that is not UTF-8 replaced. Bytes that are UTF-8 throughout give exactly the
/// text they encode. What stands for a part that is not UTF-8 is U+FFFD, so every
/// ASCII character of the text is one of the bytes.
#[verifier::external_body]
pub(crate) fn from_utf8_lossy(bytes: &[u8]) -> (r: String)
    ensures
        r@ == (if vstd::utf8::valid_utf8(bytes@) {
            vstd::utf8::decode_utf8(bytes@)
        } else {
            utf8_replaced(bytes@)
        }),
        forall|i: int|
            0 <= i < r@.len() && r@[i] < '\u{80}' ==> bytes@.contains((#[trigger] r@[i]) as u8),
{
    String::from_utf8_lossy(bytes).into_owned()
}

/// `std::str::from_utf8`: the text that bytes encode, where they are UTF-8
/// throughout.
#[verifier::external_body]
pub(crate) fn utf8_text(bytes: &[u8]) -> (r: Option<String>)
    ensures
        (match r {
            Some(t) => vstd::utf8::valid_utf8(bytes@) && t@ == vstd::utf8::decode_utf8(bytes@),
            None => !vstd::utf8::valid_utf8(bytes@),
        }),
{
    std::str::from_utf8(bytes).ok().map(|t| t.to_string())
}

/// The encoding of two texts, one after the other.
pub proof fn lemma_utf8_add(a: Seq<char>, b: Seq<char>)
    ensures
        vstd::utf8::encode_utf8(a + b) == vstd::utf8::encode_utf8(a) + vstd::utf8::encode_utf8(b),
    decreases a.len(),
{
    if a.len() == 0 {
        assert(a + b =~= b);
        assert(vstd::utf8::encode_utf8(a) + vstd::utf8::encode_utf8(b)
            =~= vstd::utf8::encode_utf8(b));
    } else {
        lemma_utf8_add(a.drop_first(), b);
        assert((a + b).drop_first() =~= a.drop_first() + b);
        assert(vstd::utf8::encode_utf8(a + b) =~= vstd::utf8::encode_utf8(a)
            + vstd::utf8::encode_utf8(b));
    }
}

/// Encoding a text and reading it back gives the text.
pub proof fn lemma_utf8_reads_back(s: Seq<char>)
    ensures
        utf8_lossy(vstd::utf8::encode_utf8(s)) == s,
{
    vstd::utf8::encode_utf8_valid_utf8(s);
    vstd::utf8::encode_utf8_decode_utf8(s);
}

proof fn lemma_scalar_bytes(v: u32)
    requires
        v <= 0x10FFFF,
    ensures
        v < 0x80 ==> vstd::utf8::encode_scalar(v) == seq![v as u8],
        v >= 0x80 ==> forall|i: int|
            0 <= i < vstd::utf8::encode_scalar(v).len() ==> #[trigger] vstd::utf8::encode_scalar(
                v,
            )[i] >= 0x80,
{
    assert(v < 0x80 ==> (v & 0x7F) as u8 == v as u8) by (bit_vector);
    assert(0xC0 | ((v >> 6) & 0x1F) as u8 >= 0x80) by (bit_vector);
    assert(0xE0 | ((v >> 12) & 0x0F) as u8 >= 0x80) by (bit_vector);
    assert(0xF0 | ((v >> 18) & 0x7) as u8 >= 0x80) by (bit_vector);
    assert(0x80 | (v & 0x3F) as u8 >= 0x80) by (bit_vector);
    assert(0x80 | ((v >> 6) & 0x3F) as u8 >= 0x80) by (bit_vector);
    assert(0x80 | ((v >> 12) & 0x3F) as u8 >= 0x80) by (bit_vector);
}

proof fn lemma_char_bytes(c: char, b: u8)
    requires
        b < 0x80,
        c != b as char,
    ensures
        forall|i: int|
            0 <= i < vstd::utf8::encode_scalar(c as u32).len()
                ==> #[trigger] vstd::utf8::encode_scalar(c as u32)[i] != b,
{
    lemma_scalar_bytes(c as u32);
}

/// A byte below 0x80 stands in the encoding of a text only for the character
/// with that number.
pub proof fn lemma_ascii_byte_in_utf8(s: Seq<char>, b: u8)
    requires
        b < 0x80,
        forall|i: int| 0 <= i < s.len() ==> #[trigger] s[i] != b as char,
    ensures
        forall|i: int|
            0 <= i < vstd::utf8::encode_utf8(s).len() ==> #[trigger] vstd::utf8::encode_utf8(s)[i]
                != b,
    decreases s.len(),
{
    if s.len() > 0 {
        let head = vstd::utf8::encode_scalar(s[0] as u32);
        let rest = s.drop_first();
        assert forall|i: int| 0 <= i < rest.len() implies #[trigger] rest[i] != b as char by {
            assert(rest[i] == s[i + 1]);
        }
        lemma_ascii_byte_in_utf8(rest, b);
        lemma_char_bytes(s[0], b);
        let all = vstd::utf8::encode_utf8(s);
        assert(all == head + vstd::utf8::encode_utf8(rest));
        assert forall|i: int| 0 <= i < all.len() implies #[trigger] all[i] != b by {
            if i < head.len() {
                assert(all[i] == head[i]);
            } else {
                assert(all[i] == vstd::utf8::encode_utf8(rest)[i - head.len()]);
            }
        }
    }
}

} // verus!
