//! JSON as the bot reads it: one level at a time. Parsing a text gives its
//! top value; the elements of a list and the fields of an object are kept
//! as JSON texts of their own, read again when they are needed.

use vstd::prelude::*;

use crate::text;
use crate::text::{chars_of, str_eq};

verus! {

/// The top value of a JSON text: each element of a list and each field's
/// value of an object is kept as its own JSON text.
#[derive(Debug)]
pub enum JsonNode {
    Null,
    Bool(bool),
    /// A number, as serde_json writes it.
    Number(String),
    Text(String),
    Array(Vec<String>),
    Object(Vec<(String, String)>),
}

/// A JSON node as values.
pub enum JsonNodeView {
    Null,
    Bool(bool),
    Number(Seq<char>),
    Text(Seq<char>),
    Array(Seq<Seq<char>>),
    Object(Seq<(Seq<char>, Seq<char>)>),
}

impl View for JsonNode {
    type V = JsonNodeView;

    open spec fn view(&self) -> JsonNodeView {
        match self {
            JsonNode::Null => JsonNodeView::Null,
            JsonNode::Bool(b) => JsonNodeView::Bool(*b),
            JsonNode::Number(n) => JsonNodeView::Number(n@),
            JsonNode::Text(t) => JsonNodeView::Text(t@),
            JsonNode::Array(items) => JsonNodeView::Array(items@.map_values(|s: String| s@)),
            JsonNode::Object(fields) => JsonNodeView::Object(
                fields@.map_values(|f: (String, String)| (f.0@, f.1@)),
            ),
        }
    }
}

/// The view of a node that may be missing.
pub open spec fn opt_node_view(r: Option<JsonNode>) -> Option<JsonNodeView> {
    match r {
        Some(n) => Some(n@),
        None => None,
    }
}

/// What `serde_json::from_str` reads from `text` as a JSON value, taken one
/// level deep (see `parse_json`); none when the text is not JSON.
pub uninterp spec fn json_node(text: Seq<char>) -> Option<JsonNodeView>;

/// Calls `serde_json::from_str` to read `text` as a JSON value and hands out
/// its top level: a number as serde_json writes it (`to_string`), each
/// element of a list and each field's value of an object as the JSON text
/// that `to_string` writes for it, the fields in the order in which
/// serde_json's map hands them out. The result depends on the text alone;
/// which result it is is left to the name `json_node`.
#[verifier::external_body]
pub(crate) fn parse_json(text: &str) -> (r: Option<JsonNode>)
    ensures
        opt_node_view(r) == json_node(text@),
{
    match serde_json::from_str::<serde_json::Value>(text).ok()? {
        serde_json::Value::Null => Some(JsonNode::Null),
        serde_json::Value::Bool(b) => Some(JsonNode::Bool(b)),
        serde_json::Value::Number(n) => Some(JsonNode::Number(n.to_string())),
        serde_json::Value::String(t) => Some(JsonNode::Text(t)),
        serde_json::Value::Array(a) => Some(JsonNode::Array(a.iter().map(|v| v.to_string()).collect())),
        serde_json::Value::Object(m) => Some(
            JsonNode::Object(m.iter().map(|(k, v)| (k.clone(), v.to_string())).collect()),
        ),
    }
}

/// The value text of the first field of `fields` named `key`.
pub open spec fn field_value(fields: Seq<(Seq<char>, Seq<char>)>, key: Seq<char>) -> Option<
    Seq<char>,
>
    decreases fields.len(),
{
    if fields.len() == 0 {
        None
    } else if fields[0].0 == key {
        Some(fields[0].1)
    } else {
        field_value(fields.drop_first(), key)
    }
}

/// The JSON text of the field `key` of the object that `text` holds, as
/// `value[key]` reads it; none when `text` is missing or not an object, or
/// the object has no such field.
pub open spec fn json_in(text: Option<Seq<char>>, key: Seq<char>) -> Option<Seq<char>> {
    match text {
        Some(t) => match json_node(t) {
            Some(JsonNodeView::Object(fields)) => field_value(fields, key),
            _ => None,
        },
        None => None,
    }
}

/// The JSON text of element `i` of the list that `text` holds, as
/// `value[i]` reads it; none when `text` is missing or not a list, or the
/// list is shorter.
pub open spec fn json_at_index(text: Option<Seq<char>>, i: int) -> Option<Seq<char>> {
    match text {
        Some(t) => match json_node(t) {
            Some(JsonNodeView::Array(items)) => if 0 <= i < items.len() {
                Some(items[i])
            } else {
                None
            },
            _ => None,
        },
        None => None,
    }
}

/// The string that `text` holds (`as_str`).
pub open spec fn json_str(text: Option<Seq<char>>) -> Option<Seq<char>> {
    match text {
        Some(t) => match json_node(t) {
            Some(JsonNodeView::Text(s)) => Some(s),
            _ => None,
        },
        None => None,
    }
}

/// The truth value that `text` holds (`as_bool`).
pub open spec fn json_bool(text: Option<Seq<char>>) -> Option<bool> {
    match text {
        Some(t) => match json_node(t) {
            Some(JsonNodeView::Bool(b)) => Some(b),
            _ => None,
        },
        None => None,
    }
}

/// The whole number from 0 to `u64::MAX` that the number text `n` writes in
/// plain decimal digits.
pub open spec fn number_u64(n: Seq<char>) -> Option<u64> {
    if n.len() > 0 && text::all_digits(n) && text::digits_value(n) <= u64::MAX {
        Some(text::digits_value(n) as u64)
    } else {
        None
    }
}

/// The whole number from 0 to `u64::MAX` that `text` holds (`as_u64`).
pub open spec fn json_u64(text: Option<Seq<char>>) -> Option<u64> {
    match text {
        Some(t) => match json_node(t) {
            Some(JsonNodeView::Number(n)) => number_u64(n),
            _ => None,
        },
        None => None,
    }
}

/// Whether `text` holds an object (`as_object` is some).
pub open spec fn json_is_object(text: Option<Seq<char>>) -> bool {
    match text {
        Some(t) => json_node(t) matches Some(JsonNodeView::Object(_)),
        None => false,
    }
}

/// The view of a text that may be missing.
pub open spec fn opt_text(t: Option<String>) -> Option<Seq<char>> {
    match t {
        Some(s) => Some(s@),
        None => None,
    }
}

/// The whole number that the digits `n` write, when `n` is nothing but
/// digits and the number fits in a `u64` (see `number_u64`).
pub fn parse_u64_digits(n: &str) -> (r: Option<u64>)
    ensures
        r == number_u64(n@),
{
    let s = chars_of(n);
    let len = s.len();
    if len == 0 {
        return None;
    }
    let mut i: usize = 0;
    while i < len
        invariant
            i <= len == s@.len(),
            s@ == n@,
            forall|j: int| 0 <= j < i ==> text::is_digit(#[trigger] s@[j]),
        decreases len - i,
    {
        if !('0' <= s[i] && s[i] <= '9') {
            assert(!text::is_digit(s@[i as int]));
            return None;
        }
        i = i + 1;
    }
    assert(text::all_digits(s@));
    let mut v: u128 = 0;
    let mut j: usize = 0;
    while j < len
        invariant
            j <= len == s@.len(),
            s@ == n@,
            text::all_digits(s@),
            v == text::digits_value(s@.take(j as int)),
            v <= u64::MAX,
        decreases len - j,
    {
        assert(text::is_digit(s@[j as int]));
        let d = ((s[j] as u32) - 48) as u128;
        let next = v * 10 + d;
        assert(s@.take(j + 1).drop_last() =~= s@.take(j as int));
        assert(next == text::digits_value(s@.take(j + 1)));
        if next > u64::MAX as u128 {
            proof {
                text::lemma_digits_prefix(s@, j + 1);
            }
            return None;
        }
        v = next;
        j = j + 1;
    }
    assert(s@.take(len as int) =~= s@);
    Some(v as u64)
}

/// The value text of the first field of `fields` named `key`.
fn find_field(fields: &Vec<(String, String)>, key: &str) -> (r: Option<String>)
    ensures
        opt_text(r) == field_value(fields@.map_values(|f: (String, String)| (f.0@, f.1@)), key@),
{
    let ghost fv = fields@.map_values(|f: (String, String)| (f.0@, f.1@));
    let mut i: usize = 0;
    assert(fv.skip(0) =~= fv);
    while i < fields.len()
        invariant
            i <= fields@.len(),
            fv == fields@.map_values(|f: (String, String)| (f.0@, f.1@)),
            field_value(fv, key@) == field_value(fv.skip(i as int), key@),
        decreases fields@.len() - i,
    {
        let (k, v) = &fields[i];
        assert(fv.skip(i as int)[0] == fv[i as int]);
        if str_eq(k.as_str(), key) {
            return Some(v.clone());
        }
        assert(fv.skip(i as int).drop_first() =~= fv.skip(i + 1));
        i = i + 1;
    }
    None
}

/// The JSON text of the field `key` of the object that `text` holds (see
/// `json_in`).
pub fn field_in(text: &Option<String>, key: &str) -> (r: Option<String>)
    ensures
        opt_text(r) == json_in(opt_text(*text), key@),
{
    match text {
        Some(t) => match parse_json(t.as_str()) {
            Some(JsonNode::Object(fields)) => find_field(&fields, key),
            _ => None,
        },
        None => None,
    }
}

/// The JSON text of element `i` of the list that `text` holds (see
/// `json_at_index`).
pub fn element_in(text: &Option<String>, i: usize) -> (r: Option<String>)
    ensures
        opt_text(r) == json_at_index(opt_text(*text), i as int),
{
    match text {
        Some(t) => match parse_json(t.as_str()) {
            Some(JsonNode::Array(items)) => if i < items.len() {
                Some(items[i].clone())
            } else {
                None
            },
            _ => None,
        },
        None => None,
    }
}

/// Whether `text` is JSON at all.
pub fn is_json(text: &str) -> (b: bool)
    ensures
        b == json_node(text@) is Some,
{
    parse_json(text).is_some()
}

/// The string that `text` holds (see `json_str`).
pub fn str_of(text: &Option<String>) -> (r: Option<String>)
    ensures
        opt_text(r) == json_str(opt_text(*text)),
{
    match text {
        Some(t) => match parse_json(t.as_str()) {
            Some(JsonNode::Text(s)) => Some(s),
            _ => None,
        },
        None => None,
    }
}

/// The truth value that `text` holds (see `json_bool`).
pub fn bool_of(text: &Option<String>) -> (r: Option<bool>)
    ensures
        r == json_bool(opt_text(*text)),
{
    match text {
        Some(t) => match parse_json(t.as_str()) {
            Some(JsonNode::Bool(b)) => Some(b),
            _ => None,
        },
        None => None,
    }
}

/// The whole number that `text` holds (see `json_u64`).
pub fn u64_of(text: &Option<String>) -> (r: Option<u64>)
    ensures
        r == json_u64(opt_text(*text)),
{
    match text {
        Some(t) => match parse_json(t.as_str()) {
            Some(JsonNode::Number(n)) => parse_u64_digits(n.as_str()),
            _ => None,
        },
        None => None,
    }
}

/// Whether `text` holds an object (see `json_is_object`).
pub fn is_object(text: &Option<String>) -> (b: bool)
    ensures
        b == json_is_object(opt_text(*text)),
{
    match text {
        Some(t) => match parse_json(t.as_str()) {
            Some(JsonNode::Object(_)) => true,
            _ => false,
        },
        None => false,
    }
}

} // verus!
