//! A JSON document as plain data, produced by `serde_json` behind a trusted
//! boundary. The schema checks that sit on top of it are verified code in
//! `config`.

use vstd::prelude::*;

verus! {

/// A parsed JSON document. Numbers are carried as their decimal text: nothing
/// in this library reads a number's value.
#[derive(Debug)]
pub enum Json {
    Null,
    Bool(bool),
    Num(String),
    Str(String),
    Arr(Vec<Json>),
    Obj(Vec<(String, Json)>),
}

/// Declares `serde_json::Value`, the parser's own document type, so the
/// trusted conversion below may take it; it stays opaque here.
#[verifier::external_type_specification]
#[verifier::external_body]
pub struct ExValue(serde_json::Value);

/// What parsing a text as JSON yields: `None` where the text is not valid
/// JSON, otherwise the document. Parsing is a function of the text alone; it
/// has no short description, so it is left uninterpreted and the trusted
/// parser below is its only source.
pub uninterp spec fn json_parse(s: Seq<char>) -> Option<Json>;

/// Relies on `serde_json::Value`: each variant is carried to the matching
/// `Json` variant, fields moved one for one; a number becomes its decimal
/// text.
#[verifier::external_body]
fn json_of_value(v: serde_json::Value) -> Json {
    match v {
        serde_json::Value::Null => Json::Null,
        serde_json::Value::Bool(b) => Json::Bool(b),
        serde_json::Value::Number(n) => Json::Num(n.to_string()),
        serde_json::Value::String(s) => Json::Str(s),
        serde_json::Value::Array(a) => Json::Arr(a.into_iter().map(json_of_value).collect()),
        serde_json::Value::Object(m) => Json::Obj(
            m.into_iter().map(|(k, x)| (k, json_of_value(x))).collect(),
        ),
    }
}

/// Relies on `serde_json::from_str::<serde_json::Value>`: it parses the text
/// as JSON, returning a value exactly when the text is valid JSON, and its
/// result depends on the text alone. On failure the error's display text is
/// returned.
#[verifier::external_body]
pub(crate) fn parse_json_text(s: &str) -> (r: Result<Json, String>)
    ensures
        r is Ok <==> json_parse(s@) is Some,
        r is Ok ==> r->Ok_0 == json_parse(s@)->Some_0,
{
    match serde_json::from_str::<serde_json::Value>(s) {
        Ok(v) => Ok(json_of_value(v)),
        Err(e) => Err(e.to_string()),
    }
}

/// The value under `key` in an object's field list: the first field whose
/// name matches, if any.
pub open spec fn json_lookup(fields: Seq<(String, Json)>, key: Seq<char>) -> Option<Json>
    decreases fields.len(),
{
    if fields.len() == 0 {
        None
    } else if fields[0].0@ == key {
        Some(fields[0].1)
    } else {
        json_lookup(fields.skip(1), key)
    }
}

/// Finds the value under `key` in an object's field list.
pub fn obj_get<'a>(fields: &'a Vec<(String, Json)>, key: &String) -> (r: Option<&'a Json>)
    ensures
        match r {
            Some(j) => json_lookup(fields@, key@) == Some(*j),
            None => json_lookup(fields@, key@) is None,
        },
{
    let n = fields.len();
    let mut i: usize = 0;
    proof {
        assert(fields@.skip(0) =~= fields@);
    }
    while i < n
        invariant
            n == fields@.len(),
            i <= n,
            json_lookup(fields@, key@) == json_lookup(fields@.skip(i as int), key@),
        decreases n - i,
    {
        let p = &fields[i];
        proof {
            assert(fields@.skip(i as int)[0] == fields@[i as int]);
        }
        if p.0 == *key {
            return Some(&p.1);
        }
        proof {
            assert(fields@.skip(i as int).skip(1) =~= fields@.skip(i + 1));
        }
        i += 1;
    }
    proof {
        assert(fields@.skip(n as int).len() == 0);
    }
    None
}

} // verus!
