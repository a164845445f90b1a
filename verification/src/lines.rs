//! Cleaning one line of a transcript file before it is parsed.

use vstd::prelude::*;

verus! {

/// The characters other than NUL, in order.
pub open spec fn without_nul(s: Seq<char>) -> Seq<char>
    decreases s.len(),
{
    if s.len() == 0 {
        Seq::empty()
    } else if s.last() == '\0' {
        without_nul(s.drop_last())
    } else {
        without_nul(s.drop_last()).push(s.last())
    }
}

/// Characters with the Unicode `White_Space` property.
pub open spec fn is_white_space(c: char) -> bool {
    let n = c as u32;
    (9 <= n <= 13) || n == 32 || n == 0x85 || n == 0xA0 || n == 0x1680 || (0x2000 <= n <= 0x200A)
        || n == 0x2028 || n == 0x2029 || n == 0x202F || n == 0x205F || n == 0x3000
}

/// How many characters at the front are white space.
pub open spec fn leading_white(s: Seq<char>) -> nat
    decreases s.len(),
{
    if s.len() > 0 && is_white_space(s[0]) {
        1 + leading_white(s.drop_first())
    } else {
        0
    }
}

/// How many characters at the back are white space.
pub open spec fn trailing_white(s: Seq<char>) -> nat
    decreases s.len(),
{
    if s.len() > 0 && is_white_space(s.last()) {
        1 + trailing_white(s.drop_last())
    } else {
        0
    }
}

/// The text without white space at either end.
pub open spec fn trimmed(s: Seq<char>) -> Seq<char> {
    let front = leading_white(s);
    let rest = s.skip(front as int);
    rest.take(rest.len() - trailing_white(rest))
}

/// `str::trim`: the slice without leading and trailing white space, white
/// space being the characters with the Unicode `White_Space` property.
#[verifier::external_body]
fn trim_white(s: &str) -> (r: &str)
    ensures
        r@ == trimmed(s@),
{
    s.trim()
}

/// `String::push`: appends one character.
#[verifier::external_body]
pub(crate) fn push_char(s: &mut String, c: char)
    ensures
        final(s)@ == old(s)@.push(c),
{
    s.push(c)
}

/// A line with its NUL characters removed and white space trimmed from both
/// ends; empty when nothing is left to parse.
pub fn clean_line(raw: &str) -> (r: String)
    ensures
        r@ == trimmed(without_nul(raw@)),
{
    broadcast use vstd::string::group_string_axioms;

    let mut cleaned = String::new();
    for c in iter: raw.chars()
        invariant
            iter.seq() == raw@,
            cleaned@ == without_nul(raw@.take(iter.index())),
        ensures
            cleaned@ == without_nul(raw@.take(raw@.len() as int)),
    {
        let ghost before = raw@.take(iter.index());
        proof {
            assert(raw@.take(iter.index() + 1).drop_last() =~= before);
        }
        if c != '\0' {
            push_char(&mut cleaned, c);
        }
    }
    assert(raw@.take(raw@.len() as int) =~= raw@);
    String::from_str(trim_white(cleaned.as_str()))
}

/// The text of a line that is left to parse once cleaned; `None` when
/// nothing is left, and the line is skipped.
pub fn text_to_parse(raw: &str) -> (r: Option<String>)
    ensures
        r.deep_view() == if trimmed(without_nul(raw@)).len() == 0 {
            None
        } else {
            Some(trimmed(without_nul(raw@)))
        },
{
    let cleaned = clean_line(raw);
    if cleaned.as_str().is_empty() {
        None
    } else {
        Some(cleaned)
    }
}

} // verus!
