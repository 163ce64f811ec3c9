use vstd::prelude::*;

verus! {

/// `serde_json::Value`: a JSON value. Verified code moves such values about
/// and builds strings and objects through the functions below; it never
/// looks inside one.
#[verifier::external_type_specification]
#[verifier::external_body]
pub struct ExJsonValue(serde_json::Value);

/// `serde_json::Map`: the members of a JSON object.
#[verifier::external_type_specification]
#[verifier::external_body]
#[verifier::reject_recursive_types(K)]
#[verifier::reject_recursive_types(V)]
pub struct ExJsonMap<K, V>(serde_json::Map<K, V>);

/// The members of a JSON object, as `serde_json` holds them.
pub type JsonMembers = serde_json::Map<String, serde_json::Value>;

/// The shape of a JSON value, as far as this library builds and compares
/// values: strings and objects are spelled out, a number keeps no detail.
pub enum JsonShape {
    Null,
    Bool(bool),
    Number,
    Text(Seq<char>),
    Array(Seq<JsonShape>),
    Object(Map<Seq<char>, JsonShape>),
}

/// The shape of a JSON value.
pub uninterp spec fn json_shape(value: serde_json::Value) -> JsonShape;

/// What a JSON object map holds: under each key, the shape of its value.
pub uninterp spec fn json_members(members: JsonMembers) -> Map<Seq<char>, JsonShape>;

/// The members of an empty JSON object.
pub open spec fn no_members() -> Map<Seq<char>, JsonShape> {
    Map::empty()
}

/// `serde_json::Map::new`: a map without members.
#[verifier::external_body]
pub(crate) fn json_map_new() -> (made: JsonMembers)
    ensures
        json_members(made) == no_members(),
{
    serde_json::Map::new()
}

/// `serde_json::Map::insert`: stores `value` under `key`, replacing what was
/// stored there, and leaves every other member as it was.
#[verifier::external_body]
pub(crate) fn json_map_insert(members: &mut JsonMembers, key: String, value: serde_json::Value)
    ensures
        json_members(*final(members)) == json_members(*old(members)).insert(
            key@,
            json_shape(value),
        ),
{
    members.insert(key, value);
}

/// `From<String> for serde_json::Value`: the JSON string with this text.
#[verifier::external_body]
pub(crate) fn json_string(text: String) -> (value: serde_json::Value)
    ensures
        json_shape(value) == JsonShape::Text(text@),
{
    serde_json::Value::from(text)
}

/// `From<Map<String, Value>> for serde_json::Value`: the JSON object with
/// these members.
#[verifier::external_body]
pub(crate) fn json_object(members: JsonMembers) -> (value: serde_json::Value)
    ensures
        json_shape(value) == JsonShape::Object(json_members(members)),
{
    serde_json::Value::from(members)
}

} // verus!
