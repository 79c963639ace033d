//! What syncing an edition writes to the database.
use vstd::prelude::*;

use crate::license::json::{canonicalize_value, json_str, opt_text, parse_json, serde_json_text, serde_json_tree, Json};

verus! {

/// Whether a value is the array of the texts.
pub open spec fn string_array(v: Json, texts: Seq<String>) -> bool {
    &&& v matches Json::Array(items)
    &&& items@.len() == texts.len()
    &&& forall|i: int| 0 <= i < texts.len() ==> json_str(#[trigger] items@[i]) == Some(texts[i]@)
}

/// Whether a value is an edition's metadata object: its feature names, its
/// constraints and its defaults.
pub open spec fn metadata_object(v: Json, features: Seq<String>, constraints: Json, defaults: Json) -> bool {
    &&& v matches Json::Object(members)
    &&& members@.len() == 3
    &&& members@[0].0@ == "features"@ && string_array(members@[0].1, features)
    &&& members@[1].0@ == "constraints"@ && members@[1].1 == constraints
    &&& members@[2].0@ == "defaults"@ && members@[2].1 == defaults
}

fn key(s: &str) -> (r: String)
    ensures
        r@ == s@,
{
    s.to_string()
}

/// The metadata column of an edition: the object of its feature names and
/// of its constraints and defaults (given as JSON texts), as serde_json
/// writes it; `None` where a text is not JSON or serde_json cannot write the
/// object.
pub fn edition_metadata(features: &Vec<String>, constraints: &str, defaults: &str) -> (r: Option<String>)
    ensures
        match (serde_json_tree(constraints@), serde_json_tree(defaults@)) {
            (Some(c), Some(d)) => exists|v: Json|
                metadata_object(v, features@, c, d) && #[trigger] serde_json_text(v) == opt_text(r),
            _ => r is None,
        },
{
    let c = match parse_json(constraints) {
        Some(v) => v,
        None => return None,
    };
    let d = match parse_json(defaults) {
        Some(v) => v,
        None => return None,
    };
    let mut items: Vec<Json> = Vec::new();
    let mut i: usize = 0;
    while i < features.len()
        invariant
            i <= features@.len(),
            items@.len() == i,
            forall|j: int| 0 <= j < i ==> json_str(#[trigger] items@[j]) == Some(features@[j]@),
        decreases features@.len() - i,
    {
        items.push(Json::Str(features[i].clone()));
        i = i + 1;
    }
    let mut members: Vec<(String, Json)> = Vec::new();
    members.push((key("features"), Json::Array(items)));
    members.push((key("constraints"), c));
    members.push((key("defaults"), d));
    let v = Json::Object(members);
    assert(metadata_object(v, features@, serde_json_tree(constraints@).unwrap(), serde_json_tree(defaults@).unwrap()));
    canonicalize_value(&v)
}

} // verus!
