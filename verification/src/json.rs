use vstd::prelude::*;

verus! {

/// A JSON document held as plain data, so that logic over it can be verified.
/// Numbers carry no payload: the gateway never reads a numeric value, it only
/// needs to tell numbers apart from the kinds it does read.
pub enum JsonValue {
    Null,
    Bool(bool),
    Number,
    Str(String),
    Arr(Vec<JsonValue>),
    Obj(Vec<(String, JsonValue)>),
}

/// The value under the first field whose key matches, if any.
pub open spec fn spec_lookup(fields: Seq<(String, JsonValue)>, key: Seq<char>) -> Option<
    JsonValue,
>
    decreases fields.len(),
{
    if fields.len() == 0 {
        None
    } else if fields[0].0@ == key {
        Some(fields[0].1)
    } else {
        spec_lookup(fields.drop_first(), key)
    }
}

/// Finds the value stored under `key`, scanning fields front to back.
pub fn lookup<'a>(fields: &'a Vec<(String, JsonValue)>, key: &String) -> (r: Option<
    &'a JsonValue,
>)
    ensures
        match r {
            Some(v) => spec_lookup(fields@, key@) == Some(*v),
            None => spec_lookup(fields@, key@) is None,
        },
{
    let n = fields.len();
    let mut i: usize = 0;
    assert(fields@.skip(0) =~= fields@);
    while i < n
        invariant
            n == fields@.len(),
            0 <= i <= n,
            spec_lookup(fields@, key@) == spec_lookup(fields@.skip(i as int), key@),
        decreases n - i,
    {
        if fields[i].0 == *key {
            assert(fields@.skip(i as int)[0] == fields@[i as int]);
            return Some(&fields[i].1);
        }
        assert(fields@.skip(i as int).drop_first() =~= fields@.skip(i + 1));
        i += 1;
    }
    assert(fields@.skip(n as int).len() == 0);
    None
}

/// What `serde_json` reads out of a byte sequence: `None` where the bytes are
/// not a valid JSON document.
pub uninterp spec fn json_doc_of(bytes: Seq<u8>) -> Option<JsonValue>;

#[verifier::external_type_specification]
#[verifier::external_body]
pub struct ExSerdeValue(serde_json::Value);

/// Relies on `serde_json::Value` being exactly the six JSON kinds: each
/// variant is carried across one for one into the library's own document
/// type, so that verified code can read the document as plain data.
#[verifier::external_body]
fn adopt_value(v: serde_json::Value) -> JsonValue {
    match v {
        serde_json::Value::Null => JsonValue::Null,
        serde_json::Value::Bool(b) => JsonValue::Bool(b),
        serde_json::Value::Number(_) => JsonValue::Number,
        serde_json::Value::String(s) => JsonValue::Str(s),
        serde_json::Value::Array(a) => JsonValue::Arr(a.into_iter().map(adopt_value).collect()),
        serde_json::Value::Object(m) => JsonValue::Obj(
            m.into_iter().map(|(k, w)| (k, adopt_value(w))).collect(),
        ),
    }
}

/// Relies on `serde_json::from_slice`: parses the bytes as one JSON document,
/// failing on invalid JSON. The result depends on the bytes alone.
#[verifier::external_body]
pub fn parse_json(bytes: &[u8]) -> (r: Option<JsonValue>)
    ensures
        r == json_doc_of(bytes@),
{
    match serde_json::from_slice::<serde_json::Value>(bytes) {
        Ok(v) => Some(adopt_value(v)),
        Err(_) => None,
    }
}

} // verus!
