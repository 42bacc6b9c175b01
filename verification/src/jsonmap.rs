//! The string projection handed to the templating layer, held in a
//! `serde_json` object map so that the templating collaborator can consume
//! it directly.

use vstd::prelude::*;

verus! {

/// Declares serde_json's object map so it can stand in signatures.
#[verifier::external_type_specification]
#[verifier::external_body]
#[verifier::reject_recursive_types(K)]
#[verifier::reject_recursive_types(V)]
pub struct ExJsonMap<K, V>(serde_json::Map<K, V>);

/// Declares serde_json's value type so it can stand in signatures.
#[verifier::external_type_specification]
#[verifier::external_body]
pub struct ExJsonValue(serde_json::Value);

/// A JSON object map with the concrete key and value types serde_json
/// gives it.
pub type JsonDict = serde_json::Map<String, serde_json::Value>;

/// The string-valued entries a JSON object map holds, key to text.
pub uninterp spec fn json_entries(m: JsonDict) -> Map<Seq<char>, Seq<char>>;

/// Relies on serde_json::Map::new: a fresh map holds no entries.
#[verifier::external_body]
pub(crate) fn json_map_new() -> (r: JsonDict)
    ensures
        (json_entries(r) == Map::<Seq<char>, Seq<char>>::empty()),
{
    serde_json::Map::new()
}

/// Relies on serde_json::Map::insert: stores the string value under the
/// key, replacing whatever the key held.
#[verifier::external_body]
pub(crate) fn json_map_insert_str(m: &mut JsonDict, k: &str, v: &str)
    ensures
        json_entries(*final(m)) == json_entries(*old(m)).insert(k@, v@),
{
    m.insert(k.to_string(), serde_json::Value::String(v.to_string()));
}

} // verus!
