use vstd::prelude::*;

verus! {

/// A parsed JSON document, holding as plain values everything the adapter
/// reads from the vault tool's output.  Numbers never carry information for
/// this adapter, so they collapse to a marker variant.
#[derive(Debug)]
pub enum Json {
    Null,
    Bool(bool),
    Num,
    Str(String),
    Arr(Vec<Json>),
    Obj(Vec<(String, Json)>),
}

/// The JSON document type of the outside parser, opaque to this library:
/// values of it only pass through the conversion below.
#[verifier::external_type_specification]
#[verifier::external_body]
pub struct ExValue(serde_json::Value);

/// The JSON tree that parsing `bytes` yields, or `None` when the bytes are
/// not one well-formed JSON document.  The result depends on the bytes alone.
pub uninterp spec fn json_of(bytes: Seq<u8>) -> Option<Json>;

/// Relies on `serde_json::from_slice::<serde_json::Value>`: parses one JSON
/// document from bytes; the result is a function of the bytes alone.
#[verifier::external_body]
pub(crate) fn parse_json(bytes: &[u8]) -> (r: Option<Json>)
    ensures
        r == json_of(bytes@),
{
    match serde_json::from_slice::<serde_json::Value>(bytes) {
        Ok(v) => Some(json_from_value(v)),
        Err(_) => None,
    }
}

/// Relies on the public variants of `serde_json::Value`: rebuilds the parsed
/// document as the adapter's own tree, variant for variant.
#[verifier::external_body]
fn json_from_value(v: serde_json::Value) -> Json {
    match v {
        serde_json::Value::Null => Json::Null,
        serde_json::Value::Bool(b) => Json::Bool(b),
        serde_json::Value::Number(_) => Json::Num,
        serde_json::Value::String(s) => Json::Str(s),
        serde_json::Value::Array(a) => Json::Arr(a.into_iter().map(json_from_value).collect()),
        serde_json::Value::Object(m) => Json::Obj(
            m.into_iter().map(|(k, w)| (k, json_from_value(w))).collect(),
        ),
    }
}

/// The value stored under `key` in an object's field list, going by the first
/// occurrence of the key.
pub open spec fn obj_get(fields: Seq<(String, Json)>, key: Seq<char>) -> Option<Json>
    decreases fields.len(),
{
    if fields.len() == 0 {
        None
    } else if fields[0].0@ == key {
        Some(fields[0].1)
    } else {
        obj_get(fields.subrange(1, fields.len() as int), key)
    }
}

/// Looks `key` up in an object's field list.
pub fn get_field<'a>(fields: &'a Vec<(String, Json)>, key: &str) -> (r: Option<&'a Json>)
    ensures
        match r {
            Some(j) => obj_get(fields@, key@) == Some(*j),
            None => obj_get(fields@, key@) is None,
        },
{
    let k: String = key.to_owned();
    let len = fields.len();
    let mut i: usize = 0;
    proof {
        assert(fields@.subrange(0, len as int) =~= fields@);
    }
    while i < len
        invariant
            len == fields@.len(),
            i <= len,
            k@ == key@,
            obj_get(fields@, key@) == obj_get(fields@.subrange(i as int, len as int), key@),
        decreases len - i,
    {
        if fields[i].0 == k {
            proof {
                let cur = fields@.subrange(i as int, len as int);
                assert(cur[0] == fields@[i as int]);
            }
            return Some(&fields[i].1);
        }
        proof {
            let cur = fields@.subrange(i as int, len as int);
            assert(cur[0] == fields@[i as int]);
            assert(cur.subrange(1, cur.len() as int) =~= fields@.subrange(
                i + 1,
                len as int,
            ));
        }
        i += 1;
    }
    None
}

} // verus!
