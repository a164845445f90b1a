//! Single cells of a row, and what each holds.

use crate::json::{json_text, to_json_text, JsonNumber, JsonValue, JsonView, NumberView};
use vstd::prelude::*;

verus! {

pub open spec fn cell_text(t: Seq<char>) -> JsonView {
    JsonView::String(t)
}

pub open spec fn cell_opt_text(o: Option<String>) -> JsonView {
    match o {
        Some(t) => JsonView::String(t@),
        None => JsonView::Null,
    }
}

pub open spec fn cell_opt_seq(o: Option<Seq<char>>) -> JsonView {
    match o {
        Some(t) => JsonView::String(t),
        None => JsonView::Null,
    }
}

pub open spec fn cell_bool(v: bool) -> JsonView {
    JsonView::Bool(v)
}

pub open spec fn cell_opt_bool(o: Option<bool>) -> JsonView {
    match o {
        Some(v) => JsonView::Bool(v),
        None => JsonView::Null,
    }
}

pub open spec fn cell_uint(n: nat) -> JsonView {
    JsonView::Number(NumberView::PosInt(n))
}

/// An integer cell: negative integers and the others are told apart.
pub open spec fn cell_int(i: int) -> JsonView {
    if i < 0 {
        JsonView::Number(NumberView::NegInt(i))
    } else {
        JsonView::Number(NumberView::PosInt(i as nat))
    }
}

pub open spec fn cell_opt_uint(o: Option<u64>) -> JsonView {
    match o {
        Some(n) => cell_uint(n as nat),
        None => JsonView::Null,
    }
}

pub open spec fn cell_opt_u32(o: Option<u32>) -> JsonView {
    match o {
        Some(n) => cell_uint(n as nat),
        None => JsonView::Null,
    }
}

pub open spec fn cell_opt_number(o: Option<JsonNumber>) -> JsonView {
    match o {
        Some(n) => JsonView::Number(n@),
        None => JsonView::Null,
    }
}

/// A JSON column: the compact JSON text of the value, as a string.
pub open spec fn cell_json(v: JsonView) -> JsonView {
    JsonView::String(json_text(v))
}

pub open spec fn cell_opt_json(o: Option<JsonValue>) -> JsonView {
    match o {
        Some(v) => cell_json(v@),
        None => JsonView::Null,
    }
}

/// Absent is NULL; present as JSON null is the text `null`.
pub open spec fn cell_opt_opt_json(o: Option<Option<JsonValue>>) -> JsonView {
    match o {
        None => JsonView::Null,
        Some(None) => JsonView::String(seq!['n', 'u', 'l', 'l']),
        Some(Some(v)) => cell_json(v@),
    }
}

/// `n` NULL cells.
pub open spec fn nulls(n: nat) -> Seq<JsonView> {
    Seq::new(n, |i: int| JsonView::Null)
}

pub fn s(v: Option<String>) -> (r: JsonValue)
    ensures
        r@ == cell_opt_text(v),
{
    match v {
        Some(x) => JsonValue::String(x),
        None => JsonValue::Null,
    }
}

pub fn s_str(v: &str) -> (r: JsonValue)
    ensures
        r@ == cell_text(v@),
{
    JsonValue::String(String::from_str(v))
}

pub fn b(v: bool) -> (r: JsonValue)
    ensures
        r@ == cell_bool(v),
{
    JsonValue::Bool(v)
}

pub fn ob(v: Option<bool>) -> (r: JsonValue)
    ensures
        r@ == cell_opt_bool(v),
{
    match v {
        Some(x) => JsonValue::Bool(x),
        None => JsonValue::Null,
    }
}

pub fn u(v: u64) -> (r: JsonValue)
    ensures
        r@ == cell_uint(v as nat),
{
    JsonValue::Number(JsonNumber::PosInt(v))
}

/// An integer cell, negative or not.
pub fn int_cell(v: i64) -> (r: JsonValue)
    ensures
        r@ == cell_int(v as int),
{
    if v < 0 {
        JsonValue::Number(JsonNumber::NegInt(v))
    } else {
        JsonValue::Number(JsonNumber::PosInt(v as u64))
    }
}

pub fn ou(v: Option<u64>) -> (r: JsonValue)
    ensures
        r@ == cell_opt_uint(v),
{
    match v {
        Some(x) => JsonValue::Number(JsonNumber::PosInt(x)),
        None => JsonValue::Null,
    }
}

pub fn ou32(v: Option<u32>) -> (r: JsonValue)
    ensures
        r@ == cell_opt_u32(v),
{
    match v {
        Some(x) => JsonValue::Number(JsonNumber::PosInt(x as u64)),
        None => JsonValue::Null,
    }
}

/// A cell for a floating-point field, carried as the number that stands for it.
pub fn of(v: &Option<JsonNumber>) -> (r: JsonValue)
    ensures
        r@ == cell_opt_number(*v),
{
    match v {
        Some(n) => JsonValue::Number(n.clone_number()),
        None => JsonValue::Null,
    }
}

pub fn json_str(v: &JsonValue) -> (r: JsonValue)
    ensures
        r@ == cell_json(v@),
{
    JsonValue::String(to_json_text(v))
}

pub fn ojson(v: Option<&JsonValue>) -> (r: JsonValue)
    ensures
        r@ == match v {
            Some(x) => cell_json(x@),
            None => JsonView::Null,
        },
{
    match v {
        Some(x) => json_str(x),
        None => JsonValue::Null,
    }
}

pub fn opt_opt_json(v: &Option<Option<JsonValue>>) -> (r: JsonValue)
    ensures
        r@ == cell_opt_opt_json(*v),
{
    match v {
        None => JsonValue::Null,
        Some(None) => {
            proof {
                reveal_strlit("null");
                assert("null"@ =~= seq!['n', 'u', 'l', 'l']);
            }
            JsonValue::String(String::from_str("null"))
        },
        Some(Some(x)) => json_str(x),
    }
}

/// A text cell copied from a string.
pub fn text_of(v: &String) -> (r: JsonValue)
    ensures
        r@ == cell_text(v@),
{
    JsonValue::String(v.clone())
}

/// A text cell copied from an optional string.
pub fn opt_text_of(v: &Option<String>) -> (r: JsonValue)
    ensures
        r@ == cell_opt_text(*v),
{
    match v {
        Some(x) => JsonValue::String(x.clone()),
        None => JsonValue::Null,
    }
}

/// A JSON-text cell for an optional value.
pub fn opt_json_of(v: &Option<JsonValue>) -> (r: JsonValue)
    ensures
        r@ == cell_opt_json(*v),
{
    match v {
        Some(x) => json_str(x),
        None => JsonValue::Null,
    }
}

} // verus!
