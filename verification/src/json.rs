//! JSON as the policy engine speaks it, written and read by `serde_json`.
//!
//! The values of `serde_json` are opaque here. What the rest of the crate
//! needs of them has a name: the members of an object under construction,
//! the text written for such an object, and the members found at the top of
//! a text that was read.

use vstd::prelude::*;

verus! {

/// `serde_json::Value`, a JSON value of any kind.
#[verifier::external_type_specification]
#[verifier::external_body]
pub struct ExJsonValue(serde_json::Value);

/// `serde_json::Error`, the error of `serde_json::from_str`. Nothing is read from it.
#[verifier::external_type_specification]
#[verifier::external_body]
pub struct ExJsonError(serde_json::Error);

/// `serde_json::Map`, the members of a JSON object.
#[verifier::external_type_specification]
#[verifier::external_body]
#[verifier::reject_recursive_types(K)]
#[verifier::reject_recursive_types(V)]
pub struct ExJsonMap<K, V>(serde_json::Map<K, V>);

/// What a member of an object under construction holds: a string, an
/// unsigned integer, or anything else.
pub enum Scalar {
    Text(Seq<char>),
    Number(nat),
    Other,
}

/// A member found at the top of a JSON text. Strings and booleans keep
/// their value; of the rest only the kind is kept.
#[derive(Clone, Debug, PartialEq, Eq)]
pub enum JsonMember {
    /// The text holds no object, or the object has no such member.
    Absent,
    Null,
    Bool(bool),
    Number,
    Text(String),
    Array,
    Object,
}

/// A `JsonMember` with its string as a sequence of characters.
pub enum JsonMemberView {
    Absent,
    Null,
    Bool(bool),
    Number,
    Text(Seq<char>),
    Array,
    Object,
}

impl View for JsonMember {
    type V = JsonMemberView;

    open spec fn view(&self) -> JsonMemberView {
        match *self {
            JsonMember::Absent => JsonMemberView::Absent,
            JsonMember::Null => JsonMemberView::Null,
            JsonMember::Bool(b) => JsonMemberView::Bool(b),
            JsonMember::Number => JsonMemberView::Number,
            JsonMember::Text(s) => JsonMemberView::Text(s@),
            JsonMember::Array => JsonMemberView::Array,
            JsonMember::Object => JsonMemberView::Object,
        }
    }
}

/// The members of the object that `map` holds, by key.
pub uninterp spec fn object_fields(map: serde_json::Map<String, serde_json::Value>) -> Map<
    Seq<char>,
    Scalar,
>;

/// The compact JSON text of an object with the given members.
pub uninterp spec fn json_object_text(fields: Map<Seq<char>, Scalar>) -> Seq<char>;

/// The members of `value` by key, if it is an object; no members otherwise.
pub uninterp spec fn value_members(value: serde_json::Value) -> Map<Seq<char>, JsonMemberView>;

/// The members at the top of a JSON text, or `None` if the text is not JSON.
pub uninterp spec fn json_members(text: Seq<char>) -> Option<Map<Seq<char>, JsonMemberView>>;

/// The member under `key`, or `Absent` where there is none.
pub open spec fn member_of(members: Map<Seq<char>, JsonMemberView>, key: Seq<char>) -> JsonMemberView {
    if members.contains_key(key) {
        members[key]
    } else {
        JsonMemberView::Absent
    }
}

/// The members of an object that has none.
pub open spec fn no_fields() -> Map<Seq<char>, Scalar> {
    Map::empty()
}

/// Whether every member is a string or an unsigned integer.
pub open spec fn all_plain(fields: Map<Seq<char>, Scalar>) -> bool {
    forall|key: Seq<char>| #[trigger] fields.contains_key(key) ==> !(fields[key] is Other)
}

/// Calls `serde_json::Map::new`. Believed, not proved: the new object has no member.
#[verifier::external_body]
pub(crate) fn new_object() -> (object: serde_json::Map<String, serde_json::Value>)
    ensures
        object_fields(object) == no_fields(),
{
    serde_json::Map::new()
}

/// Calls `serde_json::Map::insert` with a string value. Believed, not
/// proved: afterwards the object holds that string under `key`, in place of
/// what it held there, and its other members are as before.
#[verifier::external_body]
pub(crate) fn insert_text(
    map: &mut serde_json::Map<String, serde_json::Value>,
    key: &str,
    text: &str,
)
    ensures
        object_fields(*final(map)) == object_fields(*old(map)).insert(key@, Scalar::Text(text@)),
{
    map.insert(key.to_owned(), serde_json::Value::String(text.to_owned()));
}

/// Calls `serde_json::Map::insert` with an unsigned integer. Believed, not
/// proved: afterwards the object holds that number under `key`, in place of
/// what it held there, and its other members are as before.
#[verifier::external_body]
pub(crate) fn insert_number(
    map: &mut serde_json::Map<String, serde_json::Value>,
    key: &str,
    number: u32,
)
    ensures
        object_fields(*final(map)) == object_fields(*old(map)).insert(
            key@,
            Scalar::Number(number as nat),
        ),
{
    map.insert(key.to_owned(), serde_json::Value::from(number));
}

/// Calls `to_string` on the `serde_json::Value` that holds the object, which
/// writes compact JSON with the members in the order of their keys.
/// Believed, not proved: the text written for an object whose members are
/// strings and unsigned integers depends on those members alone.
#[verifier::external_body]
pub(crate) fn object_text(map: serde_json::Map<String, serde_json::Value>) -> (text: String)
    requires
        all_plain(object_fields(map)),
    ensures
        text@ == json_object_text(object_fields(map)),
{
    serde_json::Value::Object(map).to_string()
}

/// Calls `serde_json::from_str` for a `serde_json::Value`. Believed, not
/// proved: whether a text is read, and which members are then found at its
/// top, depends on the text alone.
#[verifier::external_body]
pub(crate) fn parse_value(text: &str) -> (r: Result<serde_json::Value, serde_json::Error>)
    ensures
        match r {
            Ok(value) => json_members(text@) == Some(value_members(value)),
            Err(_) => json_members(text@).is_none(),
        },
{
    serde_json::from_str(text)
}

/// Calls `serde_json::Value::get` with a key and tells the variants of the
/// result apart. Believed, not proved: the result is the member of the value
/// under `key`, and `Absent` where the value is no object or has no such member.
#[verifier::external_body]
pub(crate) fn member(value: &serde_json::Value, key: &str) -> (m: JsonMember)
    ensures
        m@ == member_of(value_members(*value), key@),
{
    match value.get(key) {
        None => JsonMember::Absent,
        Some(serde_json::Value::Null) => JsonMember::Null,
        Some(serde_json::Value::Bool(b)) => JsonMember::Bool(*b),
        Some(serde_json::Value::Number(_)) => JsonMember::Number,
        Some(serde_json::Value::String(s)) => JsonMember::Text(s.clone()),
        Some(serde_json::Value::Array(_)) => JsonMember::Array,
        Some(serde_json::Value::Object(_)) => JsonMember::Object,
    }
}

} // verus!
