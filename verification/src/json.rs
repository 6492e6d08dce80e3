//! JSON objects, as the crate `serde_json` reads and writes them.
use vstd::prelude::*;

verus! {

/// A JSON value.
#[verifier::external_type_specification]
#[verifier::external_body]
pub struct ExValue(serde_json::Value);

/// Why some bytes are not JSON.
#[verifier::external_type_specification]
#[verifier::external_body]
pub struct ExJsonError(serde_json::Error);

/// The members of a JSON object that is put together.
#[verifier::external_type_specification]
#[verifier::external_body]
#[verifier::reject_recursive_types(K)]
#[verifier::reject_recursive_types(V)]
pub struct ExObject<K, V>(serde_json::Map<K, V>);

/// A member of a JSON object: a text, a truth value, a whole number, null, or anything else.
pub enum JsonMember {
    Text(Seq<char>),
    Truth(bool),
    Whole(int),
    Null,
    Other,
}

/// A member that is put into a JSON object.
#[derive(Clone, Debug, PartialEq, Eq)]
pub enum JsonScalar {
    Text(String),
    Truth(bool),
    Whole(i64),
    Null,
}

impl View for JsonScalar {
    type V = JsonMember;

    open spec fn view(&self) -> JsonMember {
        match self {
            JsonScalar::Text(text) => JsonMember::Text(text@),
            JsonScalar::Truth(truth) => JsonMember::Truth(*truth),
            JsonScalar::Whole(number) => JsonMember::Whole(*number as int),
            JsonScalar::Null => JsonMember::Null,
        }
    }
}

/// A member of a JSON object, where there is one.
#[derive(Clone, Debug, PartialEq, Eq)]
pub enum JsonField {
    Absent,
    Text(String),
    Other,
}

/// The members of a JSON value: none, if it is not an object.
pub uninterp spec fn json_members(value: serde_json::Value) -> Map<Seq<char>, JsonMember>;

/// The members of the JSON value that some bytes spell, if they spell one.
pub uninterp spec fn json_document(bytes: Seq<u8>) -> Option<Map<Seq<char>, JsonMember>>;

/// The members of a JSON object that is put together.
pub uninterp spec fn object_members(object: serde_json::Map<String, serde_json::Value>) -> Map<
    Seq<char>,
    JsonMember,
>;

/// Whether no member is anything but a text, a truth value, a whole number or null.
pub open spec fn is_flat(members: Map<Seq<char>, JsonMember>) -> bool {
    forall|name: Seq<char>| #[trigger] members.contains_key(name) ==> !(members[name] is Other)
}

/// The member that a map has under a name.
pub open spec fn field_of(members: Map<Seq<char>, JsonMember>, key: Seq<char>) -> JsonFieldView {
    if members.contains_key(key) {
        match members[key] {
            JsonMember::Text(text) => JsonFieldView::Text(text),
            _ => JsonFieldView::Other,
        }
    } else {
        JsonFieldView::Absent
    }
}

/// A member of a JSON object, where there is one.
pub enum JsonFieldView {
    Absent,
    Text(Seq<char>),
    Other,
}

impl View for JsonField {
    type V = JsonFieldView;

    open spec fn view(&self) -> JsonFieldView {
        match self {
            JsonField::Absent => JsonFieldView::Absent,
            JsonField::Text(text) => JsonFieldView::Text(text@),
            JsonField::Other => JsonFieldView::Other,
        }
    }
}

/// Calls `serde_json::from_slice` for a `serde_json::Value`: whether it succeeds, and the members of
/// the value, depend on the bytes alone.
#[verifier::external_body]
pub(crate) fn parse_json(bytes: &[u8]) -> (r: Result<serde_json::Value, serde_json::Error>)
    ensures
        match json_document(bytes@) {
            Some(members) => r is Ok && json_members(r->Ok_0) == members,
            None => r is Err,
        },
{
    serde_json::from_slice::<serde_json::Value>(bytes)
}

/// Calls `serde_json::Value::get` with a name, and `serde_json::Value::as_str` on what it gives: the
/// member of that name, as a text where it is one.
#[verifier::external_body]
pub(crate) fn json_field(value: &serde_json::Value, key: &str) -> (r: JsonField)
    ensures
        r@ == field_of(json_members(*value), key@),
{
    match value.get(key) {
        None => JsonField::Absent,
        Some(member) => match member.as_str() {
            Some(text) => JsonField::Text(text.to_owned()),
            None => JsonField::Other,
        },
    }
}

/// Calls `serde_json::Map::new`: an object without members.
#[verifier::external_body]
pub(crate) fn empty_object() -> (r: serde_json::Map<String, serde_json::Value>)
    ensures
        object_members(r).is_empty(),
{
    serde_json::Map::new()
}

/// Calls `serde_json::Map::insert`: the object then has this member under the name, and its other
/// members as before.
#[verifier::external_body]
pub(crate) fn with_member(
    object: serde_json::Map<String, serde_json::Value>,
    name: &str,
    member: JsonScalar,
) -> (r: serde_json::Map<String, serde_json::Value>)
    ensures
        object_members(r) == object_members(object).insert(name@, member@),
{
    let value = match member {
        JsonScalar::Text(text) => serde_json::Value::String(text),
        JsonScalar::Truth(truth) => serde_json::Value::Bool(truth),
        JsonScalar::Whole(number) => serde_json::Value::from(number),
        JsonScalar::Null => serde_json::Value::Null,
    };
    let mut object = object;
    object.insert(name.to_owned(), value);
    object
}

/// Calls `serde_json::to_vec` on an object whose members are texts, truth values, whole numbers and
/// nulls: it succeeds, and the bytes spell a JSON value with these members.
#[verifier::external_body]
pub(crate) fn encode_object(object: &serde_json::Map<String, serde_json::Value>) -> (r: Result<
    Vec<u8>,
    serde_json::Error,
>)
    requires
        is_flat(object_members(*object)),
    ensures
        r is Ok,
        json_document(r->Ok_0@) == Some(object_members(*object)),
{
    serde_json::to_vec(object)
}

} // verus!
