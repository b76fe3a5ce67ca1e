//! JSON objects read and written by serde_json, with each member's value seen
//! as a string or as something else.

use std::collections::BTreeMap;
use vstd::prelude::*;

verus! {

#[verifier::external_type_specification]
#[verifier::external_body]
pub struct ExJsonError(serde_json::Error);

/// The object that serde_json reads from `text`, each member's value given as
/// `Some` of its string or `None` where it is not a string: `None` as a whole
/// where `text` is not a JSON object.
pub uninterp spec fn string_object_of(text: Seq<u8>) -> Option<Map<Seq<char>, Option<Seq<char>>>>;

/// The JSON text that serde_json writes for an object of string members.
pub uninterp spec fn json_text_of(m: Map<Seq<char>, Seq<char>>) -> Seq<u8>;

/// A member value as the object model sees it.
pub open spec fn member_view(v: Option<String>) -> Option<Seq<char>> {
    match v {
        Some(s) => Some(s@),
        None => None,
    }
}

/// `m` holds exactly the members listed in `entries`.
pub open spec fn describes(m: Map<Seq<char>, Option<Seq<char>>>, entries: Seq<(String, Option<String>)>) -> bool {
    &&& forall|i: int|
        0 <= i < entries.len() ==> #[trigger] m.contains_key(entries[i].0@) && m[entries[i].0@]
            == member_view(entries[i].1)
    &&& forall|k: Seq<char>|
        #[trigger] m.contains_key(k) ==> exists|i: int| 0 <= i < entries.len() && entries[i].0@ == k
}

/// `m` holds exactly the string members listed in `entries`.
pub open spec fn describes_strings(m: Map<Seq<char>, Seq<char>>, entries: Seq<(String, String)>) -> bool {
    &&& forall|i: int|
        0 <= i < entries.len() ==> #[trigger] m.contains_key(entries[i].0@) && m[entries[i].0@]
            == entries[i].1@
    &&& forall|k: Seq<char>|
        #[trigger] m.contains_key(k) ==> exists|i: int| 0 <= i < entries.len() && entries[i].0@ == k
}

/// An object of string members, as the reader sees it.
pub open spec fn as_members(m: Map<Seq<char>, Seq<char>>) -> Map<Seq<char>, Option<Seq<char>>> {
    m.map_values(|v: Seq<char>| Some(v))
}

/// No two members of `entries` share a name.
pub open spec fn distinct_names<V>(entries: Seq<(String, V)>) -> bool {
    forall|i: int, j: int|
        0 <= i < entries.len() && 0 <= j < entries.len() && i != j ==> entries[i].0@
            != entries[j].0@
}

/// Relies on `serde_json::from_slice` into a `BTreeMap<String, serde_json::Value>`:
/// it succeeds exactly on a JSON object, and where a name repeats the last value
/// is kept. Only string values are kept as strings.
#[verifier::external_body]
pub(crate) fn decode_object(text: &[u8]) -> (r: Result<Vec<(String, Option<String>)>, serde_json::Error>)
    ensures
        match r {
            Ok(entries) => string_object_of(text@) matches Some(m) && describes(m, entries@),
            Err(_) => string_object_of(text@) is None,
        },
{
    let m: BTreeMap<String, serde_json::Value> = serde_json::from_slice(text)?;
    Ok(m.into_iter().map(|(k, v)| (k, match v {
        serde_json::Value::String(s) => Some(s),
        serde_json::Value::Null => None,
        serde_json::Value::Bool(_) => None,
        serde_json::Value::Number(_) => None,
        serde_json::Value::Array(_) => None,
        serde_json::Value::Object(_) => None,
    })).collect())
}

/// Relies on `serde_json::to_vec` on a `BTreeMap<String, String>`: it cannot fail
/// (string keys, a `Serialize` impl that never fails, a `Vec` writer), its text
/// depends on the map alone, and `serde_json::from_slice` reads that text back
/// as the same map.
#[verifier::external_body]
pub(crate) fn encode_string_object(entries: &Vec<(String, String)>) -> (r: Result<Vec<u8>, serde_json::Error>)
    requires
        distinct_names(entries@),
    ensures
        r is Ok,
        forall|m: Map<Seq<char>, Seq<char>>|
            #[trigger] describes_strings(m, entries@) ==> r->Ok_0@ == json_text_of(m)
                && string_object_of(r->Ok_0@) == Some(as_members(m)),
{
    let m: BTreeMap<String, String> = entries.iter().cloned().collect();
    serde_json::to_vec(&m)
}

/// Position of the first member called `name`, if `entries` has one.
pub fn find_member<V>(entries: &Vec<(String, V)>, name: &String) -> (r: Option<usize>)
    ensures
        r is None <==> forall|i: int| 0 <= i < entries.len() ==> entries@[i].0@ != name@,
        r matches Some(i) ==> i < entries.len() && entries@[i as int].0@ == name@ && forall|j: int|
            0 <= j < i ==> entries@[j].0@ != name@,
{
    let mut i: usize = 0;
    while i < entries.len()
        invariant
            i <= entries.len(),
            forall|j: int| 0 <= j < i ==> entries@[j].0@ != name@,
        decreases entries.len() - i,
    {
        if entries[i].0 == *name {
            return Some(i);
        }
        i = i + 1;
    }
    None
}

} // verus!
