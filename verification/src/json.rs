//! The JSON object behind a signal file's content, as `serde_json` reads and
//! writes it. Everything in this file is believed, not proved: each function
//! makes its call into `serde_json`, and its contract says what that call does.

use vstd::prelude::*;

verus! {

#[verifier::external_type_specification]
#[verifier::external_body]
#[verifier::reject_recursive_types(K)]
#[verifier::reject_recursive_types(V)]
pub struct ExJsonMap<K, V>(serde_json::Map<K, V>);

#[verifier::external_type_specification]
#[verifier::external_body]
pub struct ExJsonValue(serde_json::Value);

#[verifier::external_type_specification]
#[verifier::external_body]
pub struct ExJsonError(serde_json::Error);

/// What a member of a JSON object holds, as far as a message needs to know.
pub enum Member {
    /// A non-negative integer that fits 64 bits.
    Number(u64),
    /// A string.
    Text(Seq<char>),
    /// Anything else: null, a boolean, another number, an array, an object.
    Other,
}

/// The members of a JSON object, by key.
pub uninterp spec fn object_members(
    object: serde_json::Map<String, serde_json::Value>,
) -> Map<Seq<char>, Member>;

/// What `serde_json::from_str` makes of a text: `None` where the text is not
/// one JSON object, else the object's members.
pub uninterp spec fn parsed_members(text: Seq<char>) -> Option<Map<Seq<char>, Member>>;

/// No members.
pub open spec fn no_members() -> Map<Seq<char>, Member> {
    Map::empty()
}

/// Whether every member is an integer of 64 bits or a string.
pub open spec fn is_flat(members: Map<Seq<char>, Member>) -> bool {
    forall|key: Seq<char>| members.contains_key(key) ==> #[trigger] members[key] != Member::Other
}

/// The integer under a key, if the key holds one.
pub open spec fn number_at(members: Map<Seq<char>, Member>, key: Seq<char>) -> Option<u64> {
    if members.contains_key(key) {
        match members[key] {
            Member::Number(number) => Some(number),
            _ => None,
        }
    } else {
        None
    }
}

/// The string under a key, if the key holds one.
pub open spec fn text_at(members: Map<Seq<char>, Member>, key: Seq<char>) -> Option<Seq<char>> {
    if members.contains_key(key) {
        match members[key] {
            Member::Text(text) => Some(text),
            _ => None,
        }
    } else {
        None
    }
}

/// `serde_json::Map::new`: an object without members.
#[verifier::external_body]
pub(crate) fn object_new() -> (object: serde_json::Map<String, serde_json::Value>)
    ensures
        object_members(object) == no_members(),
{
    serde_json::Map::new()
}

/// `serde_json::Map::insert` with a number: the key now holds that number,
/// whatever it held before, and no other member changes.
#[verifier::external_body]
pub(crate) fn object_put_number(
    object: &mut serde_json::Map<String, serde_json::Value>,
    key: &str,
    number: u64,
)
    ensures
        object_members(*final(object)) == object_members(*old(object)).insert(
            key@,
            Member::Number(number),
        ),
{
    object.insert(key.to_owned(), serde_json::Value::from(number));
}

/// `serde_json::Map::insert` with a string: the key now holds that string,
/// whatever it held before, and no other member changes.
#[verifier::external_body]
pub(crate) fn object_put_text(
    object: &mut serde_json::Map<String, serde_json::Value>,
    key: &str,
    text: &str,
)
    ensures
        object_members(*final(object)) == object_members(*old(object)).insert(
            key@,
            Member::Text(text@),
        ),
{
    object.insert(key.to_owned(), serde_json::Value::from(text));
}

/// `serde_json::Map::get`, then `Value::as_u64`: the member under the key
/// where it is a non-negative integer that fits 64 bits.
#[verifier::external_body]
pub(crate) fn object_number(
    object: &serde_json::Map<String, serde_json::Value>,
    key: &str,
) -> (number: Option<u64>)
    ensures
        number == number_at(object_members(*object), key@),
{
    object.get(key).and_then(serde_json::Value::as_u64)
}

/// `serde_json::Map::get`, then `Value::as_str`: the member under the key
/// where it is a string.
#[verifier::external_body]
pub(crate) fn object_text(
    object: &serde_json::Map<String, serde_json::Value>,
    key: &str,
) -> (text: Option<String>)
    ensures
        text.is_some() == text_at(object_members(*object), key@).is_some(),
        text matches Some(t) ==> text_at(object_members(*object), key@) == Some(t@),
{
    object.get(key).and_then(serde_json::Value::as_str).map(str::to_owned)
}

/// `serde_json::from_str` at the type of a JSON object: it fails exactly on
/// the texts that are not one JSON object, the empty text among them, and
/// otherwise hands out the object that the text describes.
#[verifier::external_body]
pub(crate) fn object_parse(text: &str) -> (parsed: Result<
    serde_json::Map<String, serde_json::Value>,
    serde_json::Error,
>)
    ensures
        match parsed {
            Ok(object) => parsed_members(text@) == Some(object_members(object)),
            Err(_) => parsed_members(text@).is_none(),
        },
        text@.len() == 0 ==> parsed.is_err(),
{
    serde_json::from_str::<serde_json::Map<String, serde_json::Value>>(text)
}

/// `serde_json::to_string` on a JSON object whose members are integers and
/// strings. Two things are claimed. It succeeds: the text goes to a byte
/// vector, and every key is a string. And `serde_json::from_str` reads the
/// text back as an object with the same members.
#[verifier::external_body]
pub(crate) fn object_render(object: &serde_json::Map<String, serde_json::Value>) -> (rendered:
    Result<String, serde_json::Error>)
    requires
        is_flat(object_members(*object)),
    ensures
        rendered.is_ok(),
        rendered matches Ok(text) ==> parsed_members(text@) == Some(object_members(*object)),
{
    serde_json::to_string(object)
}

} // verus!
