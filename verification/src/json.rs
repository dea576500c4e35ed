//! JSON values as mathematical data, and the calls into `serde_json` that
//! read, inspect, build and write them.
//!
//! A `serde_json::Value` is opaque to the verifier. What it holds is the
//! [`Json`] that [`json_of`] names; every function below that touches a value
//! states its effect over that model. The functions marked `external_body`
//! are trusted: each makes one call into `serde_json` and claims of it what
//! that crate's source shows.

use vstd::prelude::*;

verus! {

#[verifier::external_type_specification]
#[verifier::external_body]
pub struct ExValue(serde_json::Value);

/// A JSON number: an integer between `i64::MIN` and `u64::MAX`, or any other
/// number, given by the numeral that `serde_json` writes for it.
pub enum JsonNumber {
    Int(int),
    Real(Seq<char>),
}

/// A JSON value. An object maps each key to one value.
pub enum Json {
    Null,
    Bool(bool),
    Number(JsonNumber),
    Text(Seq<char>),
    Array(Seq<Json>),
    Object(Map<Seq<char>, Json>),
}

impl Json {
    /// The member `key` of an object; `None` for a missing key and for
    /// anything that is no object.
    pub open spec fn field(self, key: Seq<char>) -> Option<Json> {
        match self {
            Json::Object(fields) if fields.contains_key(key) => Some(fields[key]),
            _ => None,
        }
    }

    /// The characters of a JSON string.
    pub open spec fn text(self) -> Option<Seq<char>> {
        match self {
            Json::Text(text) => Some(text),
            _ => None,
        }
    }

    /// The value of an integer that fits `u64`.
    pub open spec fn unsigned(self) -> Option<u64> {
        match self {
            Json::Number(JsonNumber::Int(n)) if 0 <= n <= u64::MAX => Some(n as u64),
            _ => None,
        }
    }

    /// The value of an integer that fits `i64`.
    pub open spec fn signed(self) -> Option<i64> {
        match self {
            Json::Number(JsonNumber::Int(n)) if i64::MIN <= n <= i64::MAX => Some(n as i64),
            _ => None,
        }
    }

    /// The elements of an array.
    pub open spec fn items(self) -> Option<Seq<Json>> {
        match self {
            Json::Array(items) => Some(items),
            _ => None,
        }
    }

    /// The object without members.
    pub open spec fn object() -> Json {
        Json::Object(Map::empty())
    }

    /// An object with the member `key` set to `member`; anything else is
    /// left as it is.
    pub open spec fn with(self, key: Seq<char>, member: Json) -> Json {
        match self {
            Json::Object(fields) => Json::Object(fields.insert(key, member)),
            other => other,
        }
    }

    /// A JSON integer.
    pub open spec fn of_int(n: int) -> Json {
        Json::Number(JsonNumber::Int(n))
    }

    /// A JSON string, or `null` where there is none.
    pub open spec fn of_optional_text(text: Option<Seq<char>>) -> Json {
        match text {
            Some(text) => Json::Text(text),
            None => Json::Null,
        }
    }
}

/// What a `serde_json::Value` holds.
pub uninterp spec fn json_of(value: serde_json::Value) -> Json;

/// What `serde_json::from_str` makes of a text: the value it reads, or the
/// message of the error it reports.
pub uninterp spec fn json_reading(text: Seq<char>) -> Result<Json, Seq<char>>;

/// What `serde_json::to_string` makes of a value: the compact text it
/// writes, or the message of the error it reports. The members of an object
/// are kept and written by the order of their keys, so the text depends on
/// nothing but what the value holds.
pub uninterp spec fn json_printing(json: Json) -> Result<Seq<char>, Seq<char>>;

/// The line that carries a value: its compact text, and none where that
/// cannot be written.
pub open spec fn written_line(json: Json) -> Option<Seq<char>> {
    match json_printing(json) {
        Ok(text) => Some(text),
        Err(_) => None,
    }
}

/// The models of a sequence of values.
pub open spec fn jsons_of(values: Seq<serde_json::Value>) -> Seq<Json> {
    Seq::new(values.len(), |i: int| json_of(values[i]))
}

/// The model of an optional value.
pub open spec fn optional_json_of(value: Option<serde_json::Value>) -> Option<Json> {
    match value {
        Some(value) => Some(json_of(value)),
        None => None,
    }
}

/// The view of an optional string.
pub open spec fn optional_text(text: Option<String>) -> Option<Seq<char>> {
    match text {
        Some(text) => Some(text@),
        None => None,
    }
}

/// `serde_json::from_str` at `serde_json::Value`, with the error turned into
/// its message: the outcome is the one that `json_reading` names.
#[verifier::external_body]
pub(crate) fn parse_value(text: &str) -> (read: Result<serde_json::Value, String>)
    ensures
        match read {
            Ok(value) => json_reading(text@) == Ok::<Json, Seq<char>>(json_of(value)),
            Err(message) => json_reading(text@) == Err::<Json, Seq<char>>(message@),
        },
{
    serde_json::from_str::<serde_json::Value>(text).map_err(|err| err.to_string())
}

/// `serde_json::to_string` of a value, with the error turned into its
/// message: the outcome is the one that `json_printing` names.
#[verifier::external_body]
pub(crate) fn write_value(value: &serde_json::Value) -> (written: Result<String, String>)
    ensures
        match written {
            Ok(text) => json_printing(json_of(*value)) == Ok::<Seq<char>, Seq<char>>(text@),
            Err(message) => json_printing(json_of(*value)) == Err::<Seq<char>, Seq<char>>(
                message@,
            ),
        },
{
    serde_json::to_string(value).map_err(|err| err.to_string())
}

/// `Value::get` with a string key: the member of that name when the value is
/// an object that has it.
#[verifier::external_body]
pub(crate) fn value_get<'a>(value: &'a serde_json::Value, key: &str) -> (found: Option<
    &'a serde_json::Value,
>)
    ensures
        match found {
            Some(member) => json_of(*value).field(key@) == Some(json_of(*member)),
            None => json_of(*value).field(key@) is None,
        },
{
    value.get(key)
}

/// `Value::as_str`: the characters when the value is a string.
#[verifier::external_body]
pub(crate) fn value_as_str<'a>(value: &'a serde_json::Value) -> (found: Option<&'a str>)
    ensures
        match found {
            Some(text) => json_of(*value).text() == Some(text@),
            None => json_of(*value).text() is None,
        },
{
    value.as_str()
}

/// `Value::as_u64`: the number when the value is an integer that fits `u64`.
#[verifier::external_body]
pub(crate) fn value_as_u64(value: &serde_json::Value) -> (found: Option<u64>)
    ensures
        found == json_of(*value).unsigned(),
{
    value.as_u64()
}

/// `Value::as_i64`: the number when the value is an integer that fits `i64`.
#[verifier::external_body]
pub(crate) fn value_as_i64(value: &serde_json::Value) -> (found: Option<i64>)
    ensures
        found == json_of(*value).signed(),
{
    value.as_i64()
}

/// `Value::as_array`: the elements when the value is an array.
#[verifier::external_body]
pub(crate) fn value_as_array<'a>(value: &'a serde_json::Value) -> (found: Option<
    &'a Vec<serde_json::Value>,
>)
    ensures
        match found {
            Some(items) => json_of(*value).items() == Some(jsons_of(items@)),
            None => json_of(*value).items() is None,
        },
{
    value.as_array()
}

/// `Value::is_object`.
#[verifier::external_body]
pub(crate) fn value_is_object(value: &serde_json::Value) -> (object: bool)
    ensures
        object == (json_of(*value) is Object),
{
    value.is_object()
}

/// `Value::is_null`.
#[verifier::external_body]
pub(crate) fn value_is_null(value: &serde_json::Value) -> (null: bool)
    ensures
        null == (json_of(*value) is Null),
{
    value.is_null()
}

/// `Value::clone`: the copy holds what the value holds.
#[verifier::external_body]
pub(crate) fn value_copy(value: &serde_json::Value) -> (copy: serde_json::Value)
    ensures
        json_of(copy) == json_of(*value),
{
    value.clone()
}

/// The variant `Value::Null`.
#[verifier::external_body]
pub(crate) fn value_null() -> (value: serde_json::Value)
    ensures
        json_of(value) == Json::Null,
{
    serde_json::Value::Null
}

/// The variant `Value::Bool`.
#[verifier::external_body]
pub(crate) fn value_bool(flag: bool) -> (value: serde_json::Value)
    ensures
        json_of(value) == Json::Bool(flag),
{
    serde_json::Value::Bool(flag)
}

/// The variant `Value::String`.
#[verifier::external_body]
pub(crate) fn value_text(text: String) -> (value: serde_json::Value)
    ensures
        json_of(value) == Json::Text(text@),
{
    serde_json::Value::String(text)
}

/// `Value::from` of a `u64`: the integer.
#[verifier::external_body]
pub(crate) fn value_unsigned(n: u64) -> (value: serde_json::Value)
    ensures
        json_of(value) == Json::of_int(n as int),
{
    serde_json::Value::from(n)
}

/// `Value::from` of an `i64`: the integer.
#[verifier::external_body]
pub(crate) fn value_signed(n: i64) -> (value: serde_json::Value)
    ensures
        json_of(value) == Json::of_int(n as int),
{
    serde_json::Value::from(n)
}

/// The variant `Value::Array`.
#[verifier::external_body]
pub(crate) fn value_array(items: Vec<serde_json::Value>) -> (value: serde_json::Value)
    ensures
        json_of(value) == Json::Array(jsons_of(items@)),
{
    serde_json::Value::Array(items)
}

/// `Value::Object` of `Map::new`: the object without members.
#[verifier::external_body]
pub(crate) fn value_object() -> (value: serde_json::Value)
    ensures
        json_of(value) == Json::object(),
{
    serde_json::Value::Object(serde_json::Map::new())
}

/// `Map::insert` on the members of an object: the key now maps to the new
/// value, whether or not it was there, and the other members stay.
#[verifier::external_body]
pub(crate) fn value_insert(object: &mut serde_json::Value, key: String, member: serde_json::Value)
    requires
        json_of(*old(object)) is Object,
    ensures
        json_of(*final(object)) == json_of(*old(object)).with(key@, json_of(member)),
{
    if let Some(fields) = object.as_object_mut() {
        fields.insert(key, member);
    }
}

/// Sets the member `key` of an object.
pub(crate) fn set_member(object: &mut serde_json::Value, key: &str, member: serde_json::Value)
    requires
        json_of(*old(object)) is Object,
    ensures
        json_of(*final(object)) == json_of(*old(object)).with(key@, json_of(member)),
        json_of(*final(object)) is Object,
{
    value_insert(object, String::from_str(key), member);
}

/// Sets the member `key` of an object to a string.
pub(crate) fn set_text(object: &mut serde_json::Value, key: &str, text: &str)
    requires
        json_of(*old(object)) is Object,
    ensures
        json_of(*final(object)) == json_of(*old(object)).with(key@, Json::Text(text@)),
        json_of(*final(object)) is Object,
{
    value_insert(object, String::from_str(key), value_text(String::from_str(text)));
}

/// Sets the member `key` of an object to a string, or to `null` where there
/// is none.
pub(crate) fn set_optional_text(object: &mut serde_json::Value, key: &str, text: &Option<String>)
    requires
        json_of(*old(object)) is Object,
    ensures
        json_of(*final(object)) == json_of(*old(object)).with(
            key@,
            Json::of_optional_text(optional_text(*text)),
        ),
        json_of(*final(object)) is Object,
{
    let member = match text {
        Some(text) => value_text(String::from_str(text.as_str())),
        None => value_null(),
    };
    value_insert(object, String::from_str(key), member);
}

/// Sets the member `key` of an object to a signed integer.
pub(crate) fn set_signed(object: &mut serde_json::Value, key: &str, n: i64)
    requires
        json_of(*old(object)) is Object,
    ensures
        json_of(*final(object)) == json_of(*old(object)).with(key@, Json::of_int(n as int)),
        json_of(*final(object)) is Object,
{
    value_insert(object, String::from_str(key), value_signed(n));
}

/// Sets the member `key` of an object to an unsigned integer.
pub(crate) fn set_unsigned(object: &mut serde_json::Value, key: &str, n: u64)
    requires
        json_of(*old(object)) is Object,
    ensures
        json_of(*final(object)) == json_of(*old(object)).with(key@, Json::of_int(n as int)),
        json_of(*final(object)) is Object,
{
    value_insert(object, String::from_str(key), value_unsigned(n));
}

/// Sets the member `key` of an object to a truth value.
pub(crate) fn set_bool(object: &mut serde_json::Value, key: &str, flag: bool)
    requires
        json_of(*old(object)) is Object,
    ensures
        json_of(*final(object)) == json_of(*old(object)).with(key@, Json::Bool(flag)),
        json_of(*final(object)) is Object,
{
    value_insert(object, String::from_str(key), value_bool(flag));
}

/// A copy of an optional string.
pub fn copy_optional_text(text: &Option<String>) -> (out: Option<String>)
    ensures
        optional_text(out) == optional_text(*text),
{
    match text {
        Some(text) => Some(String::from_str(text.as_str())),
        None => None,
    }
}

/// The string member `key` of an object, copied.
pub fn text_member(value: &serde_json::Value, key: &str) -> (found: Option<String>)
    ensures
        optional_text(found) == match json_of(*value).field(key@) {
            Some(member) => member.text(),
            None => None,
        },
{
    match value_get(value, key) {
        Some(member) => match value_as_str(member) {
            Some(text) => Some(String::from_str(text)),
            None => None,
        },
        None => None,
    }
}

} // verus!
