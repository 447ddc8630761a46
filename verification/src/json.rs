//! JSON values, as the `serde_json` crate parses, holds and prints them.
//!
//! A [`serde_json::Value`] stays opaque here. [`json_view`] names what the
//! library can find out about one, and every item below states what a call
//! into `serde_json` does in terms of that name.

use serde_json::{Error as JsonError, Value};
use vstd::prelude::*;

verus! {

#[verifier::external_type_specification]
#[verifier::external_body]
pub struct ExValue(serde_json::Value);

#[verifier::external_type_specification]
#[verifier::external_body]
pub struct ExJsonError(JsonError);

#[verifier::external_type_specification]
#[verifier::external_body]
#[verifier::reject_recursive_types(K)]
#[verifier::reject_recursive_types(V)]
pub struct ExJsonMap<K, V>(serde_json::Map<K, V>);

/// What a JSON value holds.
pub enum Json {
    /// `null`.
    Null,
    /// A string, with its characters.
    Text(Seq<char>),
    /// An object, with its members by key.
    Object(Map<Seq<char>, Value>),
    /// A boolean, a number or an array.
    Other(Value),
}

impl Json {
    /// The member `key` of an object; nothing for any other value.
    pub open spec fn member(self, key: Seq<char>) -> Option<Value> {
        match self {
            Json::Object(members) => if members.contains_key(key) {
                Some(members[key])
            } else {
                None
            },
            _ => None,
        }
    }

    /// The characters of the member `key`, where that member is a string.
    pub open spec fn member_text(self, key: Seq<char>) -> Option<Seq<char>> {
        match self.member(key) {
            Some(v) => match json_view(v) {
                Json::Text(s) => Some(s),
                _ => None,
            },
            None => None,
        }
    }
}

/// The members of the empty object.
pub open spec fn no_members() -> Map<Seq<char>, Value> {
    Map::empty()
}

/// What `v` holds.
pub uninterp spec fn json_view(v: Value) -> Json;

/// The members of `m` by key.
pub uninterp spec fn json_members(m: serde_json::Map<String, Value>) -> Map<Seq<char>, Value>;

/// What each of the members holds.
pub open spec fn member_views(members: Map<Seq<char>, Value>) -> Map<Seq<char>, Json> {
    members.map_values(|v: Value| json_view(v))
}

/// What each member of an object holds; nothing for any other value.
pub open spec fn object_views(v: Value) -> Option<Map<Seq<char>, Json>> {
    match json_view(v) {
        Json::Object(members) => Some(member_views(members)),
        _ => None,
    }
}

/// The JSON `null`.
pub open spec fn null_value() -> Value {
    choose|v: Value| json_view(v) == Json::Null
}

/// What `serde_json::from_str` makes of a text.
pub uninterp spec fn json_parsed(text: Seq<char>) -> Result<Value, JsonError>;

/// The compact text that `serde_json::to_string` prints for a value.
pub uninterp spec fn json_text(v: Value) -> Seq<char>;

/// Whether a `serde_json::Error` reports that reading or writing failed, rather
/// than what was read.
pub uninterp spec fn json_error_is_io(e: JsonError) -> bool;

/// The message that a `serde_json::Error` displays, unless it reports that
/// reading or writing failed.
pub uninterp spec fn json_error_text(e: JsonError) -> Seq<char>;

/// `serde_json::from_str::<Value>`: the value or the error is a function of
/// the text alone, named [`json_parsed`]. Nothing is read from elsewhere, so no
/// error reports that reading failed.
#[verifier::external_body]
pub(crate) fn parse(text: &str) -> (r: Result<Value, JsonError>)
    ensures
        r == json_parsed(text@),
        r is Err ==> !json_error_is_io(r->Err_0),
{
    serde_json::from_str(text)
}

/// `serde_json::to_string` on a [`Value`]: it always prints, and what it prints
/// is a function of the value alone, named [`json_text`].
#[verifier::external_body]
pub(crate) fn print(v: &Value) -> (r: Result<String, JsonError>)
    ensures
        r is Ok,
        r->Ok_0@ == json_text(*v),
{
    serde_json::to_string(v)
}

/// `Value::get` with a string key: the member of that key where the value is an
/// object that has one, and nothing otherwise.
#[verifier::external_body]
pub(crate) fn get<'a>(v: &'a Value, key: &str) -> (r: Option<&'a Value>)
    ensures
        match r {
            Some(m) => json_view(*v).member(key@) == Some(*m),
            None => json_view(*v).member(key@) is None,
        },
{
    v.get(key)
}

/// `Value::as_str`: the characters of a string, nothing for any other value.
pub assume_specification[ serde_json::Value::as_str ](v: &Value) -> (r: Option<&str>)
    ensures
        match r {
            Some(s) => json_view(*v) == Json::Text(s@),
            None => !(json_view(*v) is Text),
        },
;

/// `Value::clone`: the copy is the value.
pub assume_specification[ <serde_json::Value as Clone>::clone ](v: &Value) -> (r: Value)
    ensures
        r == *v,
;

/// `Value::Null`, the JSON `null`. There is no other value that holds it.
#[verifier::external_body]
fn null_variant() -> (r: Value)
    ensures
        json_view(r) == Json::Null,
        forall|v: Value| json_view(v) == Json::Null ==> v == r,
{
    Value::Null
}

/// The JSON `null`.
pub fn null() -> (r: Value)
    ensures
        r == null_value(),
        json_view(r) == Json::Null,
{
    let r = null_variant();
    assert(json_view(null_value()) == Json::Null);
    r
}

/// `Value::String`, the JSON string with the characters of `s`.
#[verifier::external_body]
pub(crate) fn string(s: String) -> (r: Value)
    ensures
        json_view(r) == Json::Text(s@),
{
    Value::String(s)
}

/// `Value::Object`, the JSON object with the members of `m`.
#[verifier::external_body]
pub(crate) fn object(m: serde_json::Map<String, Value>) -> (r: Value)
    ensures
        json_view(r) == Json::Object(json_members(m)),
{
    Value::Object(m)
}

/// `serde_json::Map::new`: a map without members.
pub assume_specification[ serde_json::Map::<String, Value>::new ]() -> (r: serde_json::Map<String, Value>)
    ensures
        json_members(r) == no_members(),
;

/// `serde_json::Map::insert`: the key now has the value, every other member is
/// as before, and the value that the key had is handed back.
pub assume_specification[ serde_json::Map::<String, Value>::insert ](
    m: &mut serde_json::Map<String, Value>,
    k: String,
    v: Value,
) -> (r: Option<Value>)
    ensures
        json_members(*final(m)) == json_members(*old(m)).insert(k@, v),
        r == (if json_members(*old(m)).contains_key(k@) {
            Some(json_members(*old(m))[k@])
        } else {
            None
        }),
;

/// `serde_json::Error::is_io`: whether the error reports that reading or writing
/// failed, named [`json_error_is_io`].
#[verifier::external_body]
pub(crate) fn error_is_io(e: &JsonError) -> (r: bool)
    ensures
        r == json_error_is_io(*e),
{
    e.is_io()
}

/// `to_string` on a `serde_json::Error`: its message, named
/// [`json_error_text`]. Where reading or writing failed, the message is that of
/// the `std::io::Error` inside, which the machine or its author words, and
/// nothing is claimed of it.
#[verifier::external_body]
pub(crate) fn error_text(e: &JsonError) -> (r: String)
    ensures
        !json_error_is_io(*e) ==> r@ == json_error_text(*e),
{
    e.to_string()
}

/// The characters of the member `key` of `v`, where that member is a string.
pub fn member_str<'a>(v: &'a Value, key: &str) -> (r: Option<&'a str>)
    ensures
        match r {
            Some(s) => json_view(*v).member_text(key@) == Some(s@),
            None => json_view(*v).member_text(key@) is None,
        },
{
    match get(v, key) {
        Some(m) => m.as_str(),
        None => None,
    }
}

} // verus!
