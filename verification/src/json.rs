//! JSON values as the row builder sees them, and their compact text form.

use crate::lines::push_char;
use vstd::prelude::*;

verus! {

/// A JSON number: a non-negative integer, a negative integer, or a float
/// carried as the text that stands for it in JSON.
#[derive(Clone, Debug, PartialEq, Eq)]
pub enum JsonNumber {
    PosInt(u64),
    NegInt(i64),
    Float(String),
}

/// A JSON value. Object members keep the order in which they were given.
#[derive(Debug, PartialEq, Eq)]
pub enum JsonValue {
    Null,
    Bool(bool),
    Number(JsonNumber),
    String(String),
    Array(Vec<JsonValue>),
    Object(Vec<(String, JsonValue)>),
}

/// Mathematical model of a JSON number.
pub enum NumberView {
    PosInt(nat),
    NegInt(int),
    Float(Seq<char>),
}

/// Mathematical model of a JSON value.
pub enum JsonView {
    Null,
    Bool(bool),
    Number(NumberView),
    String(Seq<char>),
    Array(Seq<JsonView>),
    Object(Seq<(Seq<char>, JsonView)>),
}

impl View for JsonNumber {
    type V = NumberView;

    open spec fn view(&self) -> NumberView {
        match self {
            JsonNumber::PosInt(n) => NumberView::PosInt(*n as nat),
            JsonNumber::NegInt(i) => NumberView::NegInt(*i as int),
            JsonNumber::Float(t) => NumberView::Float(t@),
        }
    }
}

pub open spec fn view_items(items: Seq<JsonValue>) -> Seq<JsonView>
    decreases items,
{
    if items.len() == 0 {
        Seq::empty()
    } else {
        view_items(items.subrange(0, items.len() - 1)).push(view_value(items[items.len() - 1]))
    }
}

pub open spec fn view_members(members: Seq<(String, JsonValue)>) -> Seq<(Seq<char>, JsonView)>
    decreases members,
{
    if members.len() == 0 {
        Seq::empty()
    } else {
        let last = members[members.len() - 1];
        view_members(members.subrange(0, members.len() - 1)).push((last.0@, view_value(last.1)))
    }
}

pub open spec fn view_value(v: JsonValue) -> JsonView
    decreases v,
{
    match v {
        JsonValue::Null => JsonView::Null,
        JsonValue::Bool(b) => JsonView::Bool(b),
        JsonValue::Number(n) => JsonView::Number(n@),
        JsonValue::String(s) => JsonView::String(s@),
        JsonValue::Array(items) => JsonView::Array(view_items(items@)),
        JsonValue::Object(members) => JsonView::Object(view_members(members@)),
    }
}

impl View for JsonValue {
    type V = JsonView;

    open spec fn view(&self) -> JsonView {
        view_value(*self)
    }
}

} // verus!

verus! {

// ─── Compact JSON text ───────────────────────────────────────────────────

/// Lower-case hexadecimal digit for `d < 16`.
pub open spec fn hex_digit(d: u32) -> char {
    if d < 10 {
        (48 + d) as char
    } else {
        (87 + d) as char
    }
}

/// How one character of a string is written inside JSON quotes.
pub open spec fn escape_char(c: char) -> Seq<char> {
    if c == '"' {
        seq!['\\', '"']
    } else if c == '\\' {
        seq!['\\', '\\']
    } else if c as u32 == 8 {
        seq!['\\', 'b']
    } else if c as u32 == 9 {
        seq!['\\', 't']
    } else if c as u32 == 10 {
        seq!['\\', 'n']
    } else if c as u32 == 12 {
        seq!['\\', 'f']
    } else if c as u32 == 13 {
        seq!['\\', 'r']
    } else if (c as u32) < 32 {
        seq!['\\', 'u', '0', '0', hex_digit((c as u32) / 16), hex_digit((c as u32) % 16)]
    } else {
        seq![c]
    }
}

/// The escaped form of a whole string, character by character.
pub open spec fn escaped(s: Seq<char>) -> Seq<char>
    decreases s.len(),
{
    if s.len() == 0 {
        Seq::empty()
    } else {
        escaped(s.drop_last()) + escape_char(s.last())
    }
}

/// A string as a JSON string literal.
pub open spec fn quoted(s: Seq<char>) -> Seq<char> {
    seq!['"'] + escaped(s) + seq!['"']
}

pub open spec fn decimal_digit(d: nat) -> char {
    (48 + d) as char
}

/// Decimal digits of a natural number, without leading zeros.
pub open spec fn decimal(n: nat) -> Seq<char>
    decreases n,
{
    if n < 10 {
        seq![decimal_digit(n)]
    } else {
        decimal(n / 10).push(decimal_digit(n % 10))
    }
}

/// Decimal text of an integer, with a leading `-` when it is negative.
pub open spec fn signed_decimal(i: int) -> Seq<char> {
    if i < 0 {
        seq!['-'] + decimal((-i) as nat)
    } else {
        decimal(i as nat)
    }
}

pub open spec fn number_text(n: NumberView) -> Seq<char> {
    match n {
        NumberView::PosInt(u) => decimal(u),
        NumberView::NegInt(i) => signed_decimal(i),
        NumberView::Float(t) => t,
    }
}

/// Array elements separated by commas.
pub open spec fn items_text(items: Seq<JsonView>) -> Seq<char>
    decreases items,
{
    if items.len() == 0 {
        Seq::empty()
    } else if items.len() == 1 {
        json_text(items[0])
    } else {
        items_text(items.subrange(0, items.len() - 1)) + seq![','] + json_text(items[items.len() - 1])
    }
}

pub open spec fn member_text(key: Seq<char>, value: JsonView) -> Seq<char> {
    quoted(key) + seq![':'] + json_text(value)
}

/// Object members `"key":value` separated by commas.
pub open spec fn members_text(members: Seq<(Seq<char>, JsonView)>) -> Seq<char>
    decreases members,
{
    if members.len() == 0 {
        Seq::empty()
    } else if members.len() == 1 {
        quoted(members[0].0) + seq![':'] + json_text(members[0].1)
    } else {
        let last = members[members.len() - 1];
        members_text(members.subrange(0, members.len() - 1)) + seq![','] + quoted(last.0) + seq![':']
            + json_text(last.1)
    }
}

/// Compact JSON text of a value: no whitespace, members in their given order.
pub open spec fn json_text(v: JsonView) -> Seq<char>
    decreases v,
{
    match v {
        JsonView::Null => seq!['n', 'u', 'l', 'l'],
        JsonView::Bool(b) => if b {
            seq!['t', 'r', 'u', 'e']
        } else {
            seq!['f', 'a', 'l', 's', 'e']
        },
        JsonView::Number(n) => number_text(n),
        JsonView::String(s) => quoted(s),
        JsonView::Array(items) => seq!['['] + items_text(items) + seq![']'],
        JsonView::Object(members) => seq!['{'] + members_text(members) + seq!['}'],
    }
}

} // verus!

verus! {

// ─── Writing the text ────────────────────────────────────────────────────

/// `serde_json::to_string` on a string slice: the JSON string literal of `s`.
/// Claimed of it: it always succeeds, and its text is `"`, then each character
/// as `escape_char` writes it (`"` and `\` behind a backslash; backspace, tab,
/// line feed, form feed and carriage return as `\b \t \n \f \r`; every other
/// character below U+0020 as `\u00` and two lower-case hex digits; all others
/// as they are), then `"`.
#[verifier::external_body]
fn quote_json_string(s: &str) -> (r: Option<String>)
    ensures
        r.is_some(),
        r.unwrap()@ == quoted(s@),
{
    serde_json::to_string(s).ok()
}

/// Appends the decimal digits of `n`, without leading zeros, to `out`.
fn write_decimal(n: u64, out: &mut String)
    ensures
        final(out)@ == old(out)@ + decimal(n as nat),
    decreases n,
{
    let d: u8 = (n % 10) as u8;
    if n >= 10 {
        write_decimal(n / 10, out);
    }
    let c = (48u8 + d) as char;
    proof {
        assert(c == decimal_digit((n % 10) as nat));
    }
    let ghost before = out@;
    push_char(out, c);
    proof {
        if n < 10 {
            assert(before + decimal(n as nat) =~= before.push(c));
        } else {
            assert(before.push(c) =~= old(out)@ + decimal((n / 10) as nat).push(c));
        }
    }
}

/// Appends the decimal digits of `i`, behind a `-` when `i` is negative.
fn write_signed_decimal(i: i64, out: &mut String)
    ensures
        final(out)@ == old(out)@ + signed_decimal(i as int),
{
    if i < 0 {
        push_char(out, '-');
        let ghost after_sign = out@;
        let magnitude: u64 = (0i128 - i as i128) as u64;
        write_decimal(magnitude, out);
        assert(out@ =~= old(out)@ + (seq!['-'] + decimal((-i) as nat)));
    } else {
        write_decimal(i as u64, out);
    }
}

/// Appends the JSON string literal of `s` to `out`.
pub fn write_quoted(s: &str, out: &mut String)
    ensures
        final(out)@ == old(out)@ + quoted(s@),
{
    match quote_json_string(s) {
        Some(t) => out.append(t.as_str()),
        None => {},
    }
}

/// Appends the text of a number to `out`.
pub fn write_number(n: &JsonNumber, out: &mut String)
    ensures
        final(out)@ == old(out)@ + number_text(n@),
{
    match n {
        JsonNumber::PosInt(u) => write_decimal(*u, out),
        JsonNumber::NegInt(i) => write_signed_decimal(*i, out),
        JsonNumber::Float(t) => out.append(t.as_str()),
    }
}

pub proof fn lemma_view_items_len(s: Seq<JsonValue>)
    ensures
        view_items(s).len() == s.len(),
    decreases s.len(),
{
    if s.len() > 0 {
        lemma_view_items_len(s.subrange(0, s.len() - 1));
    }
}

pub proof fn lemma_view_members_len(s: Seq<(String, JsonValue)>)
    ensures
        view_members(s).len() == s.len(),
    decreases s.len(),
{
    if s.len() > 0 {
        lemma_view_members_len(s.subrange(0, s.len() - 1));
    }
}

/// Appends the compact JSON text of `v` to `out`.
pub fn write_json(v: &JsonValue, out: &mut String)
    ensures
        final(out)@ == old(out)@ + json_text(v@),
    decreases v,
{
    proof {
        reveal_strlit("null");
        reveal_strlit("true");
        reveal_strlit("false");
        reveal_strlit("[");
        reveal_strlit("]");
        reveal_strlit("{");
        reveal_strlit("}");
        reveal_strlit(",");
        reveal_strlit(":");
    }
    match v {
        JsonValue::Null => out.append("null"),
        JsonValue::Bool(b) => {
            if *b {
                out.append("true")
            } else {
                out.append("false")
            }
        },
        JsonValue::Number(n) => write_number(n, out),
        JsonValue::String(s) => write_quoted(s.as_str(), out),
        JsonValue::Array(items) => {
            let ghost start = out@;
            out.append("[");
            let mut i: usize = 0;
            while i < items.len()
                invariant
                    i <= items.len(),
                    *v == JsonValue::Array(*items),
                    out@ == start + seq!['['] + items_text(view_items(items@.subrange(0, i as int))),
                decreases items.len() - i,
            {
                let ghost before = view_items(items@.subrange(0, i as int));
                proof {
                    reveal_strlit(",");
                    lemma_view_items_len(items@.subrange(0, i as int));
                    assert(items@.subrange(0, i + 1).subrange(0, i as int) =~= items@.subrange(0, i as int));
                    assert(view_items(items@.subrange(0, i + 1)) == before.push(view_value(items@[i as int])));
                    assert(before.push(view_value(items@[i as int])).subrange(0, i as int) =~= before);
                }
                let ghost mid = out@;
                if i > 0 {
                    out.append(",");
                }
                let ghost before_item = out@;
                proof {
                    assert(decreases_to!(*v => (*v)->Array_0));
                    assert(decreases_to!(*items => items@));
                    assert(decreases_to!(items@ => items@[i as int]));
                }
                write_json(&items[i], out);
                proof {
                    let y = view_value(items@[i as int]);
                    let after = before.push(y);
                    if i > 0 {
                        assert(items_text(after) == items_text(before) + seq![','] + json_text(y));
                    } else {
                        assert(items_text(after) == json_text(y));
                    }
                    assert(out@ =~= start + seq!['['] + items_text(after));
                }
                i += 1;
            }
            assert(items@.subrange(0, items.len() as int) =~= items@);
            out.append("]");
        },
        JsonValue::Object(members) => {
            let ghost start = out@;
            out.append("{");
            let mut i: usize = 0;
            while i < members.len()
                invariant
                    i <= members.len(),
                    *v == JsonValue::Object(*members),
                    out@ == start + seq!['{'] + members_text(view_members(members@.subrange(0, i as int))),
                decreases members.len() - i,
            {
                let ghost before = view_members(members@.subrange(0, i as int));
                let ghost m = members@[i as int];
                proof {
                    reveal_strlit(",");
                    reveal_strlit(":");
                    lemma_view_members_len(members@.subrange(0, i as int));
                    assert(members@.subrange(0, i + 1).subrange(0, i as int) =~= members@.subrange(0, i as int));
                    assert(view_members(members@.subrange(0, i + 1)) == before.push((m.0@, view_value(m.1))));
                    assert(before.push((m.0@, view_value(m.1))).subrange(0, i as int) =~= before);
                }
                if i > 0 {
                    out.append(",");
                }
                let (key, value) = &members[i];
                write_quoted(key.as_str(), out);
                out.append(":");
                proof {
                    assert(decreases_to!(*v => (*v)->Object_0));
                    assert(decreases_to!(*members => members@));
                    assert(decreases_to!(members@ => members@[i as int]));
                    assert(decreases_to!(members@[i as int] => members@[i as int].1));
                }
                write_json(value, out);
                proof {
                    let after = before.push((m.0@, view_value(m.1)));
                    if i > 0 {
                        assert(members_text(after) == members_text(before) + seq![','] + quoted(m.0@)
                            + seq![':'] + json_text(view_value(m.1)));
                    } else {
                        assert(members_text(after) == quoted(m.0@) + seq![':'] + json_text(view_value(m.1)));
                    }
                    assert(out@ =~= start + seq!['{'] + members_text(after));
                }
                i += 1;
            }
            assert(members@.subrange(0, members.len() as int) =~= members@);
            out.append("}");
        },
    }
}

/// The compact JSON text of `v`.
pub fn to_json_text(v: &JsonValue) -> (r: String)
    ensures
        r@ == json_text(v@),
{
    let mut out = String::new();
    write_json(v, &mut out);
    out
}

} // verus!

verus! {

// ─── Copies, lookups and the `DeepView` of rows ──────────────────────────

impl DeepView for JsonValue {
    type V = JsonView;

    open spec fn deep_view(&self) -> JsonView {
        self@
    }
}

pub proof fn lemma_view_items_index(s: Seq<JsonValue>)
    ensures
        view_items(s).len() == s.len(),
        forall|i: int| 0 <= i < s.len() ==> #[trigger] view_items(s)[i] == view_value(s[i]),
    decreases s.len(),
{
    if s.len() > 0 {
        let t = s.subrange(0, s.len() - 1);
        lemma_view_items_index(t);
        assert forall|i: int| 0 <= i < s.len() implies #[trigger] view_items(s)[i] == view_value(s[i]) by {
            if i < s.len() - 1 {
                assert(t[i] == s[i]);
            }
        }
    }
}

pub proof fn lemma_view_members_index(s: Seq<(String, JsonValue)>)
    ensures
        view_members(s).len() == s.len(),
        forall|i: int|
            0 <= i < s.len() ==> #[trigger] view_members(s)[i] == (s[i].0@, view_value(s[i].1)),
    decreases s.len(),
{
    if s.len() > 0 {
        let t = s.subrange(0, s.len() - 1);
        lemma_view_members_index(t);
        assert forall|i: int| 0 <= i < s.len() implies #[trigger] view_members(s)[i] == (
        s[i].0@, view_value(s[i].1)) by {
            if i < s.len() - 1 {
                assert(t[i] == s[i]);
            }
        }
    }
}

/// Two item lists with the same element views have the same view.
pub proof fn lemma_view_items_ext(a: Seq<JsonValue>, b: Seq<JsonValue>)
    requires
        a.len() == b.len(),
        forall|i: int| 0 <= i < a.len() ==> view_value(#[trigger] a[i]) == view_value(b[i]),
    ensures
        view_items(a) == view_items(b),
{
    lemma_view_items_index(a);
    lemma_view_items_index(b);
    assert(view_items(a) =~= view_items(b));
}

/// A copy of a JSON value.
pub fn copy_json(v: &JsonValue) -> (r: JsonValue)
    ensures
        r@ == v@,
    decreases v,
{
    match v {
        JsonValue::Null => JsonValue::Null,
        JsonValue::Bool(b) => JsonValue::Bool(*b),
        JsonValue::Number(n) => JsonValue::Number(n.clone_number()),
        JsonValue::String(s) => JsonValue::String(s.clone()),
        JsonValue::Array(items) => {
            let mut out: Vec<JsonValue> = Vec::new();
            let mut i: usize = 0;
            while i < items.len()
                invariant
                    i <= items.len(),
                    *v == JsonValue::Array(*items),
                    out@.len() == i,
                    forall|j: int| 0 <= j < i ==> view_value(#[trigger] out@[j]) == view_value(items@[j]),
                decreases items.len() - i,
            {
                proof {
                    assert(decreases_to!(*v => (*v)->Array_0));
                    assert(decreases_to!(*items => items@));
                    assert(decreases_to!(items@ => items@[i as int]));
                }
                let c = copy_json(&items[i]);
                out.push(c);
                i += 1;
            }
            proof {
                lemma_view_items_ext(out@, items@);
            }
            JsonValue::Array(out)
        },
        JsonValue::Object(members) => {
            let mut out: Vec<(String, JsonValue)> = Vec::new();
            let mut i: usize = 0;
            while i < members.len()
                invariant
                    i <= members.len(),
                    *v == JsonValue::Object(*members),
                    out@.len() == i,
                    forall|j: int|
                        0 <= j < i ==> (#[trigger] out@[j]).0@ == members@[j].0@ && view_value(out@[j].1)
                            == view_value(members@[j].1),
                decreases members.len() - i,
            {
                proof {
                    assert(decreases_to!(*v => (*v)->Object_0));
                    assert(decreases_to!(*members => members@));
                    assert(decreases_to!(members@ => members@[i as int]));
                    assert(decreases_to!(members@[i as int] => members@[i as int].1));
                }
                let (key, value) = &members[i];
                let c = copy_json(value);
                out.push((key.clone(), c));
                i += 1;
            }
            proof {
                lemma_view_members_index(out@);
                lemma_view_members_index(members@);
                assert(view_members(out@) =~= view_members(members@));
            }
            JsonValue::Object(out)
        },
    }
}

impl JsonNumber {
    /// A copy of the number.
    pub fn clone_number(&self) -> (r: JsonNumber)
        ensures
            r@ == self@,
    {
        match self {
            JsonNumber::PosInt(n) => JsonNumber::PosInt(*n),
            JsonNumber::NegInt(i) => JsonNumber::NegInt(*i),
            JsonNumber::Float(t) => JsonNumber::Float(t.clone()),
        }
    }
}

/// The value of the first member named `key`, if any.
pub open spec fn member_value(members: Seq<(Seq<char>, JsonView)>, key: Seq<char>) -> Option<JsonView>
    decreases members.len(),
{
    if members.len() == 0 {
        None
    } else if members[0].0 == key {
        Some(members[0].1)
    } else {
        member_value(members.subrange(1, members.len() as int), key)
    }
}

/// Looking a key up in a value: the member's value when the value is an
/// object that has the key, otherwise nothing.
pub open spec fn lookup(v: JsonView, key: Seq<char>) -> Option<JsonView> {
    match v {
        JsonView::Object(members) => member_value(members, key),
        _ => None,
    }
}

/// The number when the value is a non-negative integer.
pub open spec fn view_as_u64(v: JsonView) -> Option<nat> {
    match v {
        JsonView::Number(NumberView::PosInt(n)) => Some(n),
        _ => None,
    }
}

/// The text when the value is a string.
pub open spec fn view_as_str(v: JsonView) -> Option<Seq<char>> {
    match v {
        JsonView::String(s) => Some(s),
        _ => None,
    }
}

/// Whether two strings hold the same characters.
pub fn str_equal(a: &str, b: &str) -> (r: bool)
    ensures
        r == (a@ == b@),
{
    let n = a.unicode_len();
    if n != b.unicode_len() {
        return false;
    }
    let mut i: usize = 0;
    while i < n
        invariant
            i <= n,
            n == a@.len(),
            n == b@.len(),
            forall|j: int| 0 <= j < i ==> a@[j] == b@[j],
        decreases n - i,
    {
        if a.get_char(i) != b.get_char(i) {
            return false;
        }
        i += 1;
    }
    assert(a@ =~= b@);
    true
}

impl JsonValue {
    /// The value of member `key` when this is an object that has it.
    pub fn get(&self, key: &str) -> (r: Option<&JsonValue>)
        ensures
            match r {
                Some(x) => lookup(self@, key@) == Some(x@),
                None => lookup(self@, key@) is None,
            },
    {
        match self {
            JsonValue::Object(members) => {
                let ghost mv = view_members(members@);
                proof {
                    lemma_view_members_index(members@);
                }
                assert(mv.subrange(0, mv.len() as int) =~= mv);
                let mut i: usize = 0;
                while i < members.len()
                    invariant
                        i <= members.len(),
                        *self == JsonValue::Object(*members),
                        mv == view_members(members@),
                        mv.len() == members@.len(),
                        forall|j: int|
                            0 <= j < members@.len() ==> #[trigger] mv[j] == (members@[j].0@, view_value(
                                members@[j].1,
                            )),
                        member_value(mv, key@) == member_value(mv.subrange(i as int, mv.len() as int), key@),
                    decreases members.len() - i,
                {
                    let ghost rest = mv.subrange(i as int, mv.len() as int);
                    assert(rest.subrange(1, rest.len() as int) =~= mv.subrange(i + 1, mv.len() as int));
                    let (k, value) = &members[i];
                    if str_equal(k.as_str(), key) {
                        assert(rest[0] == mv[i as int]);
                        assert(member_value(rest, key@) == Some(view_value(*value)));
                        return Some(value);
                    }
                    i += 1;
                }
                assert(mv.subrange(i as int, mv.len() as int).len() == 0);
                None
            },
            _ => None,
        }
    }

    /// The number when this is a non-negative integer.
    pub fn as_u64(&self) -> (r: Option<u64>)
        ensures
            match r {
                Some(n) => view_as_u64(self@) == Some(n as nat),
                None => view_as_u64(self@) is None,
            },
    {
        match self {
            JsonValue::Number(JsonNumber::PosInt(n)) => Some(*n),
            _ => None,
        }
    }

    /// The text when this is a string.
    pub fn as_str(&self) -> (r: Option<&String>)
        ensures
            match r {
                Some(s) => view_as_str(self@) == Some(s@),
                None => view_as_str(self@) is None,
            },
    {
        match self {
            JsonValue::String(s) => Some(s),
            _ => None,
        }
    }
}

} // verus!
