//! JSON bodies, read and written by the `serde_json` crate.
//!
//! What `serde_json` makes of a text is not restated here. The result of
//! reading is given a name, and so is the result of writing; the object that
//! was read is kept as `serde_json` built it, and what it holds is named too.
//! The contracts of the library speak of those names.

use vstd::prelude::*;

verus! {

/// `serde_json::Value`, a JSON value of any kind. Nothing inside it is
/// visible to the verifier.
#[verifier::external_type_specification]
#[verifier::external_body]
pub struct ExJsonValue(serde_json::Value);

/// `serde_json::Map`, the members of a JSON object. Nothing inside it is
/// visible to the verifier; [`json_members`] names what it holds.
#[verifier::external_type_specification]
#[verifier::external_body]
#[verifier::reject_recursive_types(K)]
#[verifier::reject_recursive_types(V)]
pub struct ExJsonMap<K, V>(serde_json::Map<K, V>);

/// What a JSON object holds, as far as this library looks: under each
/// member's name, the member's value if that is an unsigned integer of at
/// most 64 bits, and `None` for a member of any other kind.
pub uninterp spec fn json_members(object: serde_json::Map<String, serde_json::Value>) -> Map<
    Seq<char>,
    Option<u64>,
>;

/// The members of the JSON object that `serde_json` reads from `text`;
/// `None` where `text` is no JSON document or the document is no object.
pub uninterp spec fn json_object_members(text: Seq<u8>) -> Option<Map<Seq<char>, Option<u64>>>;

/// The text that `serde_json` writes for the object with the single member
/// `key`, an unsigned integer; `None` where it refuses to write one.
pub uninterp spec fn json_member_text(key: Seq<char>, value: u64) -> Option<Seq<u8>>;

/// The unsigned integer found under `key` among `members`, if there is one.
pub open spec fn unsigned_member(members: Map<Seq<char>, Option<u64>>, key: Seq<char>) -> Option<
    u64,
> {
    if members.contains_key(key) {
        members[key]
    } else {
        None
    }
}

/// `serde_json::from_slice` into a `serde_json::Value`, of which the object
/// is handed out. The result depends on `text` alone.
#[verifier::external_body]
pub(crate) fn read_object(text: &[u8]) -> (object: Option<
    serde_json::Map<String, serde_json::Value>,
>)
    ensures
        match object {
            Some(members) => json_object_members(text@) == Some(json_members(members)),
            None => json_object_members(text@) is None,
        },
{
    match serde_json::from_slice::<serde_json::Value>(text) {
        Ok(serde_json::Value::Object(members)) => Some(members),
        _ => None,
    }
}

/// `serde_json::Map::get`, with `serde_json::Value::as_u64` to hand the
/// member out as a number: the member of `object` under `key`, where there
/// is one and it holds an unsigned integer.
#[verifier::external_body]
pub(crate) fn get_unsigned(object: &serde_json::Map<String, serde_json::Value>, key: &str) -> (member:
    Option<u64>)
    ensures
        member == unsigned_member(json_members(*object), key@),
{
    object.get(key)?.as_u64()
}

/// `serde_json::to_vec` of the `serde_json::Value` object whose only member
/// is `key` with the number `value`. The result depends on `key` and `value`
/// alone.
#[verifier::external_body]
pub(crate) fn write_member(key: &str, value: u64) -> (text: Option<Vec<u8>>)
    ensures
        match text {
            Some(bytes) => json_member_text(key@, value) == Some(bytes@),
            None => json_member_text(key@, value) is None,
        },
{
    let mut object = serde_json::Map::new();
    object.insert(key.to_owned(), serde_json::Value::from(value));
    serde_json::to_vec(&serde_json::Value::Object(object)).ok()
}

} // verus!
