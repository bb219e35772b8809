//! JSON texts, by way of the `serde_json` crate.
use vstd::prelude::*;
use vstd::string::*;

use crate::text;
use crate::text::{concat3, join};

verus! {

/// A character inside a JSON string.
pub open spec fn json_char(c: char) -> Seq<char> {
    if c == '"' {
        seq!['\\', '"']
    } else if c == '\\' {
        seq!['\\', '\\']
    } else if c == '\n' {
        seq!['\\', 'n']
    } else if c == '\r' {
        seq!['\\', 'r']
    } else if c == '\t' {
        seq!['\\', 't']
    } else if c == '\u{8}' {
        seq!['\\', 'b']
    } else if c == '\u{c}' {
        seq!['\\', 'f']
    } else if '\u{20}' > c {
        seq!['\\', 'u', '0', '0'] + text::hex2(c as u8)
    } else {
        seq![c]
    }
}

/// Characters inside a JSON string.
pub open spec fn json_chars(s: Seq<char>) -> Seq<char>
    decreases s.len(),
{
    if s.len() == 0 {
        Seq::empty()
    } else {
        json_chars(s.drop_last()) + json_char(s.last())
    }
}

/// A text as a JSON string.
pub open spec fn json_text(s: Seq<char>) -> Seq<char> {
    seq!['"'] + json_chars(s) + seq!['"']
}

/// `serde_json::to_string` of a text: the text in quotes, with quotes,
/// backslashes and control characters escaped. It cannot fail for a text.
#[verifier::external_body]
pub(crate) fn json_string(s: &str) -> (r: String)
    ensures
        r@ == json_text(s@),
{
    serde_json::to_string(s).unwrap_or_default()
}

/// A JSON string holds no control character, so it stays on one line.
pub proof fn json_text_is_one_line(s: Seq<char>)
    ensures
        forall|i: int| 0 <= i < json_text(s).len() ==> #[trigger] json_text(s)[i] >= '\u{20}',
{
    lemma_json_chars(s);
    let t = json_text(s);
    assert forall|i: int| 0 <= i < t.len() implies #[trigger] t[i] >= '\u{20}' by {
        if 0 < i < t.len() - 1 {
            assert(t[i] == json_chars(s)[i - 1]);
        }
    }
}

proof fn lemma_hex2(b: u8)
    ensures
        text::hex2(b)[0] >= '\u{20}',
        text::hex2(b)[1] >= '\u{20}',
{
}

proof fn lemma_json_chars(s: Seq<char>)
    ensures
        forall|i: int| 0 <= i < json_chars(s).len() ==> #[trigger] json_chars(s)[i] >= '\u{20}',
    decreases s.len(),
{
    if s.len() > 0 {
        lemma_json_chars(s.drop_last());
        let c = s.last();
        let e = json_char(c);
        assert forall|i: int| 0 <= i < e.len() implies #[trigger] e[i] >= '\u{20}' by {
            lemma_hex2(c as u8);
        }
        let head = json_chars(s.drop_last());
        assert forall|i: int| 0 <= i < json_chars(s).len() implies #[trigger] json_chars(s)[i]
            >= '\u{20}' by {
            if i < head.len() {
                assert(json_chars(s)[i] == head[i]);
            } else {
                assert(json_chars(s)[i] == e[i - head.len()]);
            }
        }
    }
}

/// The texts of a list, each as a JSON string.
pub open spec fn json_texts(items: Seq<Seq<char>>) -> Seq<Seq<char>> {
    items.map_values(|s: Seq<char>| json_text(s))
}

/// Values, each in JSON, as a JSON array.
pub open spec fn json_array(values: Seq<Seq<char>>) -> Seq<char> {
    "["@ + text::joined(values, ","@) + "]"@
}

/// Values, each in JSON, as a JSON array.
pub fn array_of(values: &Vec<String>) -> (r: String)
    ensures
        r@ == json_array(text::texts(values@)),
{
    concat3("[", join(values, ",").as_str(), "]")
}

/// Texts as a JSON array of strings.
pub fn string_array(items: &Vec<String>) -> (r: String)
    ensures
        r@ == json_array(json_texts(text::texts(items@))),
{
    let mut quoted: Vec<String> = Vec::new();
    let mut i: usize = 0;
    while i < items.len()
        invariant
            i <= items@.len(),
            quoted@.len() == i,
            forall|j: int| 0 <= j < i ==> (#[trigger] quoted@[j])@ == json_text(items@[j]@),
        decreases items@.len() - i,
    {
        quoted.push(json_string(items[i].as_str()));
        i = i + 1;
    }
    assert(text::texts(quoted@) =~= json_texts(text::texts(items@)));
    array_of(&quoted)
}

} // verus!
