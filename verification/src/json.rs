//! A plain JSON tree, obtained from `serde_json`, that verified code can
//! look inside.
//!
//! `serde_json` parses the body text; the resulting `serde_json::Value`
//! is opaque to the verifier, so it is converted, variant by variant,
//! into the library's own `JsonValue` before any logic reads it. Numbers
//! are carried as their decimal rendering, which keeps the tree free of
//! floating point.

use vstd::prelude::*;

verus! {

/// A JSON document as plain values. A number is held as the text
/// `serde_json` renders it with.
#[derive(Debug)]
pub enum JsonValue {
    Null,
    Bool(bool),
    Num(String),
    Str(String),
    Arr(Vec<JsonValue>),
    Obj(Vec<(String, JsonValue)>),
}

#[verifier::external_type_specification]
#[verifier::external_body]
pub struct ExValue(serde_json::Value);

/// The tree that parsing a body text yields: `None` when the text is not
/// valid JSON, otherwise the document it holds. Parsing depends on the
/// text alone, so the result carries a name rather than a definition.
pub uninterp spec fn spec_parse_json(s: Seq<char>) -> Option<JsonValue>;

/// Mirrors `serde_json::Value`, one arm per variant. Only the body of
/// `parse_json` calls this; numbers come out as their `to_string`
/// rendering.
#[verifier::external_body]
fn json_of_value(v: serde_json::Value) -> (r: JsonValue) {
    match v {
        serde_json::Value::Null => JsonValue::Null,
        serde_json::Value::Bool(b) => JsonValue::Bool(b),
        serde_json::Value::Number(n) => JsonValue::Num(n.to_string()),
        serde_json::Value::String(s) => JsonValue::Str(s),
        serde_json::Value::Array(a) => JsonValue::Arr(a.into_iter().map(json_of_value).collect()),
        serde_json::Value::Object(m) => JsonValue::Obj(
            m.into_iter().map(|p| (p.0, json_of_value(p.1))).collect(),
        ),
    }
}

/// Relies on `serde_json::from_str::<serde_json::Value>`: it parses the
/// text as JSON, succeeds exactly on valid JSON, and depends on the text
/// alone; `json_of_value` then re-shapes the parsed document one variant
/// at a time.
#[verifier::external_body]
pub(crate) fn parse_json(body: &str) -> (r: Option<JsonValue>)
    ensures
        r == spec_parse_json(body@),
{
    match serde_json::from_str::<serde_json::Value>(body) {
        Ok(v) => Some(json_of_value(v)),
        Err(_) => None,
    }
}

/// The value under `key` in an object's field list: the first binding
/// wins. (`serde_json` has already collapsed duplicate keys, so the
/// fields seen here are distinct.)
pub open spec fn spec_obj_get(fields: Seq<(String, JsonValue)>, key: Seq<char>) -> Option<
    JsonValue,
>
    decreases fields.len(),
{
    if fields.len() == 0 {
        None
    } else if fields[0].0@ == key {
        Some(fields[0].1)
    } else {
        spec_obj_get(fields.drop_first(), key)
    }
}

proof fn lemma_obj_get_at(fields: Seq<(String, JsonValue)>, key: Seq<char>, i: int)
    requires
        0 <= i < fields.len(),
        fields[i].0@ == key,
        forall|j: int| 0 <= j < i ==> fields[j].0@ != key,
    ensures
        spec_obj_get(fields, key) == Some(fields[i].1),
    decreases i,
{
    if i > 0 {
        assert(fields[0].0@ != key);
        assert(forall|j: int| 0 <= j < i - 1 ==> fields.drop_first()[j].0@ != key);
        lemma_obj_get_at(fields.drop_first(), key, i - 1);
    }
}

proof fn lemma_obj_get_none(fields: Seq<(String, JsonValue)>, key: Seq<char>)
    requires
        forall|j: int| 0 <= j < fields.len() ==> fields[j].0@ != key,
    ensures
        spec_obj_get(fields, key) is None,
    decreases fields.len(),
{
    if fields.len() > 0 {
        assert(forall|j: int| 0 <= j < fields.len() - 1 ==> fields.drop_first()[j].0@ != key);
        lemma_obj_get_none(fields.drop_first(), key);
    }
}

/// The two strings hold the same characters.
fn string_eq_str(a: &String, b: &str) -> (r: bool)
    ensures
        r == (a@ == b@),
{
    let bs = String::from_str(b);
    *a == bs
}

/// Find `key` among an object's fields.
pub fn obj_get<'a>(fields: &'a Vec<(String, JsonValue)>, key: &str) -> (r: Option<&'a JsonValue>)
    ensures
        match r {
            Some(v) => spec_obj_get(fields@, key@) == Some(*v),
            None => spec_obj_get(fields@, key@) is None,
        },
{
    let mut i: usize = 0;
    while i < fields.len()
        invariant
            0 <= i <= fields@.len(),
            forall|j: int| 0 <= j < i ==> fields@[j].0@ != key@,
        decreases fields@.len() - i,
    {
        let p = &fields[i];
        if string_eq_str(&p.0, key) {
            proof {
                lemma_obj_get_at(fields@, key@, i as int);
            }
            return Some(&p.1);
        }
        i = i + 1;
    }
    proof {
        lemma_obj_get_none(fields@, key@);
    }
    None
}

} // verus!
