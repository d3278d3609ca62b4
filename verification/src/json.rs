//! JSON values of `serde_json`: what they hold, how they are changed, read and written.
//!
//! The functions of `serde_json` that are used here are not verified: their contracts are
//! taken on trust. They hold for the crate's default features, under which the members of an
//! object are kept sorted by key.

use vstd::prelude::*;
use vstd::utf8::encode_utf8;

verus! {

/// What a JSON value holds.
///
/// A number is given by the text in which it is written.
pub enum Json {
    Null,
    Bool(bool),
    Number(Seq<char>),
    Str(Seq<char>),
    Array(Seq<Json>),
    Object(Map<Seq<char>, Json>),
}

/// `serde_json::Value`, whose content is given by [`json_of`].
#[verifier::external_type_specification]
#[verifier::external_body]
pub struct ExJsonValue(serde_json::Value);

/// `serde_json::Map`, whose content is given by [`members_of`].
#[verifier::external_type_specification]
#[verifier::external_body]
#[verifier::reject_recursive_types(K)]
#[verifier::reject_recursive_types(V)]
pub struct ExJsonMap<K, V>(serde_json::Map<K, V>);

/// `serde_json::Error`, whose message is given by [`json_error_text`].
#[verifier::external_type_specification]
#[verifier::external_body]
pub struct ExJsonError(serde_json::Error);

/// What `value` holds.
pub uninterp spec fn json_of(value: serde_json::Value) -> Json;

/// The members of an object: their keys and what their values hold.
pub uninterp spec fn members_of(
    map: serde_json::Map<String, serde_json::Value>,
) -> Map<Seq<char>, Json>;

/// What `serde_json::from_slice` reads as one JSON value from `bytes`, where they are JSON.
pub uninterp spec fn json_in_bytes(bytes: Seq<u8>) -> Option<Json>;

/// What `serde_json::from_str` reads as a list of JSON values from `text`, where it is a JSON
/// array.
pub uninterp spec fn json_list_in_text(text: Seq<char>) -> Option<Seq<Json>>;

/// The compact text in which `serde_json::to_string` writes a value that holds `json`.
pub uninterp spec fn json_text(json: Json) -> Seq<char>;

/// The message of an error of `serde_json`.
pub uninterp spec fn json_error_text(error: serde_json::Error) -> Seq<char>;

/// What the values of a list hold, in their order.
pub open spec fn jsons_of(values: Seq<serde_json::Value>) -> Seq<Json> {
    values.map_values(|value: serde_json::Value| json_of(value))
}

/// How many arrays and objects inside each other a JSON text may hold for it to be read.
pub open spec fn nesting_limit() -> nat {
    127
}

/// An optional minus sign and then only digits, at least one.
pub open spec fn is_integer_text(text: Seq<char>) -> bool {
    let digits = if text.len() > 0 && text[0] == '-' {
        text.skip(1)
    } else {
        text
    };
    digits.len() > 0 && forall|i: int| 0 <= i < digits.len() ==> '0' <= #[trigger] digits[i] <= '9'
}

/// A number that is read back as it was written: each integer, and each other number whose
/// text by itself is read as that number again.
pub open spec fn number_reads_back(text: Seq<char>) -> bool {
    is_integer_text(text) || json_in_bytes(encode_utf8(text)) == Some(Json::Number(text))
}

/// At most `depth` arrays and objects stand inside each other, and each number is read back as
/// it was written.
pub open spec fn reads_back(json: Json, depth: nat) -> bool
    decreases depth,
{
    match json {
        Json::Number(text) => number_reads_back(text),
        Json::Array(items) => depth > 0 && forall|i: int|
            0 <= i < items.len() ==> reads_back(#[trigger] items[i], (depth - 1) as nat),
        Json::Object(members) => depth > 0 && forall|key: Seq<char>| #[trigger]
            members.contains_key(key) ==> reads_back(members[key], (depth - 1) as nat),
        _ => true,
    }
}

/// `serde_json::Value::as_object_mut`: the members of an object, to be changed in place, and
/// nothing for any other value.
pub assume_specification[ serde_json::Value::as_object_mut ](value: &mut serde_json::Value) -> (r:
    Option<&mut serde_json::Map<String, serde_json::Value>>)
    ensures
        match r {
            Some(map) => json_of(*old(value)) == Json::Object(members_of(*map)) && json_of(
                *final(value),
            ) == Json::Object(members_of(*final(map))),
            None => !(json_of(*old(value)) is Object) && *final(value) == *old(value),
        },
;

/// `serde_json::Value::as_array_mut`: the items of an array, to be changed in place, and
/// nothing for any other value.
pub assume_specification[ serde_json::Value::as_array_mut ](value: &mut serde_json::Value) -> (r:
    Option<&mut Vec<serde_json::Value>>)
    ensures
        match r {
            Some(items) => json_of(*old(value)) == Json::Array(jsons_of(items@)) && json_of(
                *final(value),
            ) == Json::Array(jsons_of(final(items)@)),
            None => !(json_of(*old(value)) is Array) && *final(value) == *old(value),
        },
;

/// `serde_json::Value::as_array`: the items of an array, and nothing for any other value.
pub assume_specification[ serde_json::Value::as_array ](value: &serde_json::Value) -> (r: Option<
    &Vec<serde_json::Value>,
>)
    ensures
        match r {
            Some(items) => json_of(*value) == Json::Array(jsons_of(items@)),
            None => !(json_of(*value) is Array),
        },
;

/// `serde_json::Map::new`: no members.
pub assume_specification[ serde_json::Map::<String, serde_json::Value>::new ]() -> (r:
    serde_json::Map<String, serde_json::Value>)
    ensures
        (members_of(r) == Map::<Seq<char>, Json>::empty()),
;

/// `serde_json::Map::insert`: puts the value under the key and hands out what stood there.
pub assume_specification[ serde_json::Map::<String, serde_json::Value>::insert ](
    map: &mut serde_json::Map<String, serde_json::Value>,
    k: String,
    v: serde_json::Value,
) -> (r: Option<serde_json::Value>)
    ensures
        members_of(*final(map)) == members_of(*old(map)).insert(k@, json_of(v)),
        match r {
            Some(before) => members_of(*old(map)).contains_key(k@) && json_of(before)
                == members_of(*old(map))[k@],
            None => !members_of(*old(map)).contains_key(k@),
        },
;

/// `serde_json::Map::get_mut`: the value under the key, to be changed in place.
#[verifier::external_body]
pub(crate) fn member_mut<'a>(
    map: &'a mut serde_json::Map<String, serde_json::Value>,
    key: &str,
) -> (r: Option<&'a mut serde_json::Value>)
    ensures
        match r {
            Some(value) => members_of(*old(map)).contains_key(key@) && json_of(*value)
                == members_of(*old(map))[key@] && members_of(*final(map)) == members_of(
                *old(map),
            ).insert(key@, json_of(*final(value))),
            None => !members_of(*old(map)).contains_key(key@) && *final(map) == *old(map),
        },
{
    map.get_mut(key)
}

/// `serde_json::Map::contains_key`: whether a value stands under the key.
#[verifier::external_body]
pub(crate) fn has_member(map: &serde_json::Map<String, serde_json::Value>, key: &str) -> (r: bool)
    ensures
        r == members_of(*map).contains_key(key@),
{
    map.contains_key(key)
}

/// `serde_json::Value::String`: the value that is this text.
#[verifier::external_body]
pub(crate) fn text_value(text: String) -> (value: serde_json::Value)
    ensures
        json_of(value) == Json::Str(text@),
{
    serde_json::Value::String(text)
}

/// `serde_json::Value::Array`: the value that is this list.
#[verifier::external_body]
pub(crate) fn array_value(items: Vec<serde_json::Value>) -> (value: serde_json::Value)
    ensures
        json_of(value) == Json::Array(jsons_of(items@)),
{
    serde_json::Value::Array(items)
}

/// `serde_json::Value::Object`: the value that has these members.
#[verifier::external_body]
pub(crate) fn object_value(map: serde_json::Map<String, serde_json::Value>) -> (value:
    serde_json::Value)
    ensures
        json_of(value) == Json::Object(members_of(map)),
{
    serde_json::Value::Object(map)
}

/// `serde_json::from_slice` for one value: what it reads depends on the bytes alone.
#[verifier::external_body]
pub(crate) fn read_value(bytes: &[u8]) -> (r: Result<serde_json::Value, serde_json::Error>)
    ensures
        match r {
            Ok(value) => json_in_bytes(bytes@) == Some(json_of(value)),
            Err(_) => json_in_bytes(bytes@) is None,
        },
{
    serde_json::from_slice(bytes)
}

/// `serde_json::from_str` for a list of values: what it reads depends on the text alone.
#[verifier::external_body]
pub(crate) fn read_list(text: &str) -> (r: Result<Vec<serde_json::Value>, serde_json::Error>)
    ensures
        match r {
            Ok(items) => json_list_in_text(text@) == Some(jsons_of(items@)),
            Err(_) => json_list_in_text(text@) is None,
        },
{
    serde_json::from_str(text)
}

/// `serde_json::to_vec` for one value: the UTF-8 bytes of its text. Writing a `Value` into a
/// buffer has no way to fail. What was written is read as the value that was written, but for
/// values that are nested too deeply and for numbers that are not read back as themselves.
#[verifier::external_body]
pub(crate) fn write_value(value: &serde_json::Value) -> (r: Result<Vec<u8>, serde_json::Error>)
    ensures
        r is Ok,
        r matches Ok(bytes) ==> bytes@ == encode_utf8(json_text(json_of(*value))),
        r matches Ok(bytes) ==> reads_back(json_of(*value), nesting_limit()) ==> json_in_bytes(
            bytes@,
        ) == Some(json_of(*value)),
{
    serde_json::to_vec(value)
}

/// `serde_json::to_string` for a list of values: the text of the array of them. Writing a list
/// of `Value`s into a buffer has no way to fail. What was written is read as the list that was
/// written, but for lists that are nested too deeply and for numbers that are not read back as
/// themselves.
#[verifier::external_body]
pub(crate) fn write_list(items: &Vec<serde_json::Value>) -> (r: Result<String, serde_json::Error>)
    ensures
        r is Ok,
        r matches Ok(text) ==> text@ == json_text(Json::Array(jsons_of(items@))),
        r matches Ok(text) ==> reads_back(Json::Array(jsons_of(items@)), nesting_limit())
            ==> json_list_in_text(text@) == Some(jsons_of(items@)),
{
    serde_json::to_string(items)
}

/// `Display` of `serde_json::Error`: the error's message.
#[verifier::external_body]
pub(crate) fn json_error_message(error: &serde_json::Error) -> (text: String)
    ensures
        text@ == json_error_text(*error),
{
    error.to_string()
}

/// A list of values gives as many contents as it has values, each at the place of its value.
pub proof fn every_value_gives_its_content(values: Seq<serde_json::Value>, i: int)
    ensures
        jsons_of(values).len() == values.len(),
        0 <= i < values.len() ==> jsons_of(values)[i] == json_of(values[i]),
{
}

/// Texts, truth values and nulls read back on any level, and so do integers. An array or an
/// object reads back where there is a level left for it and all it holds reads back on the
/// levels below.
pub proof fn what_reads_back(
    text: Seq<char>,
    b: bool,
    items: Seq<Json>,
    members: Map<Seq<char>, Json>,
    depth: nat,
)
    ensures
        nesting_limit() == 127,
        reads_back(Json::Null, depth),
        reads_back(Json::Bool(b), depth),
        reads_back(Json::Str(text), depth),
        text.len() > 0 && (forall|i: int| 0 <= i < text.len() ==> '0' <= #[trigger] text[i] <= '9')
            ==> reads_back(Json::Number(text), depth),
        (forall|i: int| 0 <= i < items.len() ==> reads_back(#[trigger] items[i], depth))
            ==> reads_back(Json::Array(items), depth + 1),
        (forall|key: Seq<char>| #[trigger]
            members.contains_key(key) ==> reads_back(members[key], depth)) ==> reads_back(
            Json::Object(members),
            depth + 1,
        ),
{
    if text.len() > 0 && (forall|i: int| 0 <= i < text.len() ==> '0' <= #[trigger] text[i] <= '9') {
        assert('0' <= text[0] <= '9');
        assert(is_integer_text(text));
    }
}

} // verus!
