//! Reading fields of the JSON metadata stored with ledger transactions.
use vstd::prelude::*;

verus! {

/// The text is a JSON document.
pub uninterp spec fn json_parses(s: Seq<char>) -> bool;

/// The string value of a top-level field of a JSON document (`None` when the text is not JSON,
/// the field is absent or its value is not a string).
pub uninterp spec fn json_str_field(s: Seq<char>, key: Seq<char>) -> Option<Seq<char>>;

/// The integer value of a top-level field of a JSON document (`None` when the text is not JSON,
/// the field is absent or its value is not an `i64`).
pub uninterp spec fn json_i64_field(s: Seq<char>, key: Seq<char>) -> Option<i64>;

/// `serde_json::from_str::<serde_json::Value>(s).is_ok()`: the contract names the answer.
#[verifier::external_body]
pub(crate) fn json_is_valid(s: &str) -> (r: bool)
    ensures
        r == json_parses(s@),
{
    serde_json::from_str::<serde_json::Value>(s).is_ok()
}

/// `serde_json::from_str::<Value>(s)`, then `.get(key)` and `.as_str()`. The contract names the
/// result, and claims that a text that does not parse has no fields.
#[verifier::external_body]
pub(crate) fn json_get_str(s: &str, key: &str) -> (r: Option<String>)
    ensures
        match r {
            Some(v) => json_str_field(s@, key@) == Some(v@),
            None => json_str_field(s@, key@) is None,
        },
        r is Some ==> json_parses(s@),
{
    match serde_json::from_str::<serde_json::Value>(s) {
        Ok(v) => match v.get(key) {
            Some(x) => x.as_str().map(str::to_owned),
            None => None,
        },
        Err(_) => None,
    }
}

/// `serde_json::from_str::<Value>(s)`, then `.get(key)` and `.as_i64()`. The contract names the
/// result, and claims that a text that does not parse has no fields.
#[verifier::external_body]
pub(crate) fn json_get_i64(s: &str, key: &str) -> (r: Option<i64>)
    ensures
        r == json_i64_field(s@, key@),
        r is Some ==> json_parses(s@),
{
    match serde_json::from_str::<serde_json::Value>(s) {
        Ok(v) => match v.get(key) {
            Some(x) => x.as_i64(),
            None => None,
        },
        Err(_) => None,
    }
}

/// A JSON object with two string fields, as `serde_json` writes it
/// (`Value::Object` of a `serde_json::Map`, then `to_string`). The contract claims that the
/// text parses and that each field reads back as written (for two distinct keys).
#[verifier::external_body]
pub(crate) fn json_object_of_two_strings(k1: &str, v1: &str, k2: &str, v2: &str) -> (r: String)
    ensures
        json_parses(r@),
        k1@ != k2@ ==> json_str_field(r@, k1@) == Some(v1@) && json_str_field(r@, k2@) == Some(v2@),
{
    let mut m = serde_json::Map::new();
    m.insert(k1.to_owned(), serde_json::Value::String(v1.to_owned()));
    m.insert(k2.to_owned(), serde_json::Value::String(v2.to_owned()));
    serde_json::Value::Object(m).to_string()
}

/// A JSON object with one string field, as `serde_json` writes it (`Value::Object` of a
/// `serde_json::Map`, then `to_string`). The contract claims that the text parses and that the
/// field reads back as written.
#[verifier::external_body]
pub(crate) fn json_object_of_one_string(k: &str, v: &str) -> (r: String)
    ensures
        json_parses(r@),
        json_str_field(r@, k@) == Some(v@),
{
    let mut m = serde_json::Map::new();
    m.insert(k.to_owned(), serde_json::Value::String(v.to_owned()));
    serde_json::Value::Object(m).to_string()
}

} // verus!
