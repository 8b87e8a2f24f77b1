use vstd::prelude::*;

verus! {

/// A JSON document as this library models it.
///
/// A number is carried as the literal text that the parser prints for it,
/// together with its value as a signed integer where it has one (the integer
/// is absent for fractional numbers and for integers outside the `i64` range).
#[derive(Debug)]
pub enum Json {
    Null,
    Bool(bool),
    Num(String, Option<i64>),
    Str(String),
    Arr(Vec<Json>),
    Obj(Vec<(String, Json)>),
}

/// The first value bound to `key` among `fields`, if any.
pub open spec fn lookup(fields: Seq<(String, Json)>, key: Seq<char>) -> Option<Json>
    decreases fields.len(),
{
    if fields.len() == 0 {
        None
    } else if fields[0].0@ == key {
        Some(fields[0].1)
    } else {
        lookup(fields.drop_first(), key)
    }
}

/// The value bound to `key` when `j` is an object binding it; `None` otherwise.
pub open spec fn get(j: Json, key: Seq<char>) -> Option<Json> {
    match j {
        Json::Obj(fields) => lookup(fields@, key),
        _ => None,
    }
}

impl Json {
    /// Look a key up in an object; `None` on any other kind of value.
    pub fn get_field<'a>(&'a self, key: &str) -> (r: Option<&'a Json>)
        ensures
            match r {
                Some(v) => get(*self, key@) == Some(*v),
                None => get(*self, key@) is None,
            },
    {
        match self {
            Json::Obj(fields) => {
                let k: String = key.to_owned();
                let mut i: usize = 0;
                proof {
                    assert(fields@.skip(0) =~= fields@);
                }
                while i < fields.len()
                    invariant
                        i <= fields@.len(),
                        *self == Json::Obj(*fields),
                        k@ == key@,
                        lookup(fields@, key@) == lookup(fields@.skip(i as int), key@),
                    decreases fields@.len() - i,
                {
                    let entry = &fields[i];
                    if entry.0 == k {
                        assert(fields@.skip(i as int)[0] == fields@[i as int]);
                        return Some(&entry.1);
                    }
                    proof {
                        assert(fields@.skip(i as int)[0] == fields@[i as int]);
                        assert(fields@.skip(i as int).drop_first() =~= fields@.skip(
                            i as int + 1,
                        ));
                    }
                    i = i + 1;
                }
                None
            },
            _ => None,
        }
    }
}

/// The document that the JSON parser yields for a text, or `None` where the
/// text is not valid JSON. The parse of a text depends on the text alone.
pub uninterp spec fn parsed_json(s: Seq<char>) -> Option<Json>;

/// Declares `serde_json::Value`, the parser's own document type, so that
/// the conversion below may take it; the library never looks inside one.
#[verifier::external_type_specification]
#[verifier::external_body]
pub struct ExValue(serde_json::Value);

/// Converts a `serde_json::Value` into this library's model of it, one
/// variant to one variant; it serves only the body of `parse_json` below.
#[verifier::external_body]
fn value_to_json(v: &serde_json::Value) -> Json {
    match v {
        serde_json::Value::Null => Json::Null,
        serde_json::Value::Bool(b) => Json::Bool(*b),
        serde_json::Value::Number(n) => Json::Num(n.to_string(), n.as_i64()),
        serde_json::Value::String(s) => Json::Str(s.clone()),
        serde_json::Value::Array(a) => Json::Arr(a.iter().map(value_to_json).collect()),
        serde_json::Value::Object(o) => Json::Obj(
            o.iter().map(|(k, x)| (k.clone(), value_to_json(x))).collect(),
        ),
    }
}

/// Relies on `serde_json::from_str::<serde_json::Value>`: it parses a JSON
/// text into a document, or fails exactly where the text is not valid JSON,
/// and the outcome depends on the text alone.
#[verifier::external_body]
pub(crate) fn parse_json(s: &str) -> (r: Option<Json>)
    ensures
        r == parsed_json(s@),
{
    match serde_json::from_str::<serde_json::Value>(s) {
        Ok(v) => Some(value_to_json(&v)),
        Err(_) => None,
    }
}

} // verus!
