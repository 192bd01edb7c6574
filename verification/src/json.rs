//! A parsed JSON document as a value tree of the library's own, so
//! that the response envelopes of the index service can be decoded in
//! verified code. serde_json does the parsing behind one trusted
//! wrapper; everything after that call works on plain data.

use vstd::prelude::*;

verus! {

/// One JSON value. A number keeps its value only when it is an
/// integer that fits an i64 (the envelopes use no others); any other
/// number keeps only its presence. Object keys keep the parser's
/// order.
pub enum JsonValue {
    Null,
    Bool(bool),
    Num(Option<i64>),
    Str(String),
    Arr(Vec<JsonValue>),
    Obj(Vec<(String, JsonValue)>),
}

/// What parsing a body yields: the same text always parses to the
/// same tree, or to nothing when it is not well-formed JSON.
pub uninterp spec fn json_of(s: Seq<char>) -> Option<JsonValue>;

/// serde_json's value tree, carried only from the parse to the
/// conversion below.
#[verifier::external_type_specification]
#[verifier::external_body]
pub struct ExValue(serde_json::Value);

/// Relies on serde_json::Value's variants: rebuilds the parsed
/// document as the library's tree, one variant to one variant, moving
/// the fields; numbers go through Number::as_i64.
#[verifier::external_body]
fn value_to_tree(v: &serde_json::Value) -> JsonValue {
    match v {
        serde_json::Value::Null => JsonValue::Null,
        serde_json::Value::Bool(b) => JsonValue::Bool(*b),
        serde_json::Value::Number(n) => JsonValue::Num(n.as_i64()),
        serde_json::Value::String(s) => JsonValue::Str(s.clone()),
        serde_json::Value::Array(a) => JsonValue::Arr(a.iter().map(value_to_tree).collect()),
        serde_json::Value::Object(o) => JsonValue::Obj(
            o.iter().map(|(k, x)| (k.clone(), value_to_tree(x))).collect(),
        ),
    }
}

/// Relies on serde_json::from_str: parses a JSON document, or nothing
/// when the body is malformed. The parse depends on the body text
/// alone, so its result carries the name `json_of`.
#[verifier::external_body]
pub(crate) fn parse_document(body: &str) -> (r: Option<JsonValue>)
    ensures
        r == json_of(body@),
{
    match serde_json::from_str::<serde_json::Value>(body) {
        Ok(v) => Some(value_to_tree(&v)),
        Err(_) => None,
    }
}

/// The value under a key of a JSON object, by first match.
pub open spec fn spec_obj_get(fields: Seq<(String, JsonValue)>, key: Seq<char>) -> Option<
    JsonValue,
>
    decreases fields.len(),
{
    if fields.len() == 0 {
        None
    } else if fields[0].0@ == key {
        Some(fields[0].1)
    } else {
        spec_obj_get(fields.drop_first(), key)
    }
}

/// The value under a key: nothing when the value is not an object or
/// lacks the key.
pub open spec fn spec_get(v: JsonValue, key: Seq<char>) -> Option<JsonValue> {
    match v {
        JsonValue::Obj(fields) => spec_obj_get(fields@, key),
        _ => None,
    }
}

/// The text of a JSON string; nothing for any other kind of value.
pub open spec fn spec_as_str(v: JsonValue) -> Option<Seq<char>> {
    match v {
        JsonValue::Str(s) => Some(s@),
        _ => None,
    }
}

/// The value of a JSON integer that fits an i64; nothing otherwise.
pub open spec fn spec_as_int(v: JsonValue) -> Option<i64> {
    match v {
        JsonValue::Num(n) => n,
        _ => None,
    }
}

/// The value of a JSON boolean; nothing for any other kind of value.
pub open spec fn spec_as_bool(v: JsonValue) -> Option<bool> {
    match v {
        JsonValue::Bool(b) => Some(b),
        _ => None,
    }
}

/// Look a key up in a JSON object, as `spec_get` describes it.
pub fn get_field<'a>(v: &'a JsonValue, key: &str) -> (r: Option<&'a JsonValue>)
    ensures
        match r {
            Some(f) => spec_get(*v, key@) == Some(*f),
            None => spec_get(*v, key@) is None,
        },
{
    let fields = match v {
        JsonValue::Obj(fields) => fields,
        _ => {
            return None;
        },
    };
    let wanted = key.to_owned();
    let n = fields.len();
    let mut i: usize = 0;
    proof {
        assert(fields@.skip(0) =~= fields@);
    }
    while i < n
        invariant
            0 <= i <= n,
            n == fields@.len(),
            wanted@ == key@,
            spec_get(*v, key@) == spec_obj_get(fields@, key@),
            spec_obj_get(fields@, key@) == spec_obj_get(fields@.skip(i as int), key@),
        decreases n - i,
    {
        let entry = &fields[i];
        proof {
            assert(fields@.skip(i as int)[0] == fields@[i as int]);
            assert(fields@.skip(i as int).drop_first() =~= fields@.skip(i as int + 1));
            assert(fields@.skip(i as int).len() > 0);
        }
        if entry.0 == wanted {
            proof {
                let rest = fields@.skip(i as int);
                assert(rest[0].0@ == key@);
                assert(spec_obj_get(rest, key@) == Some(rest[0].1));
            }
            return Some(&entry.1);
        }
        i = i + 1;
    }
    proof {
        assert(fields@.skip(n as int).len() == 0);
    }
    None
}

/// Whether this value is JSON null.
pub fn is_null_tree(v: &JsonValue) -> (r: bool)
    ensures
        r == (*v is Null),
{
    match v {
        JsonValue::Null => true,
        _ => false,
    }
}

} // verus!
