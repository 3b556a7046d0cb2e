//! JSON values, as `serde_json` parses and prints them.

use vstd::prelude::*;

verus! {

/// `serde_json::Value`, carried through without a look at its fields.
#[verifier::external_type_specification]
#[verifier::external_body]
pub struct ExValue(serde_json::Value);

/// What a JSON value holds.
pub enum JsonData {
    Null,
    Bool(bool),
    /// A number, by the text that it prints as.
    Number(Seq<char>),
    Text(Seq<char>),
    Array(Seq<JsonData>),
    Object(Map<Seq<char>, JsonData>),
}

impl JsonData {
    /// The member of an object under `key`.
    pub open spec fn member(self, key: Seq<char>) -> Option<JsonData> {
        match self {
            JsonData::Object(members) => if members.contains_key(key) {
                Some(members[key])
            } else {
                None
            },
            _ => None,
        }
    }

    /// The characters of a string value.
    pub open spec fn text(self) -> Option<Seq<char>> {
        match self {
            JsonData::Text(s) => Some(s),
            _ => None,
        }
    }
}

/// The contents of a `serde_json::Value`.
pub uninterp spec fn json_data(value: serde_json::Value) -> JsonData;

/// What `serde_json::from_str` makes of a text: the contents of the value, or the message of the
/// error.
pub uninterp spec fn json_parse(text: Seq<char>) -> Result<JsonData, Seq<char>>;

/// The compact text that a JSON value prints as.
pub uninterp spec fn json_print(data: JsonData) -> Seq<char>;

/// Parses a text with `serde_json::from_str` into a `serde_json::Value`. The outcome depends on
/// the text alone; an error comes back as the message that it displays.
#[verifier::external_body]
pub(crate) fn parse_json(text: &str) -> (r: Result<serde_json::Value, String>)
    ensures
        match r {
            Ok(value) => json_parse(text@) == Ok::<JsonData, Seq<char>>(json_data(value)),
            Err(message) => json_parse(text@) == Err::<JsonData, Seq<char>>(message@),
        },
{
    serde_json::from_str::<serde_json::Value>(text).map_err(|err| err.to_string())
}

/// Looks a key up with `serde_json::Value::get`: the member of an object under that key, and
/// nothing for a value of another kind.
#[verifier::external_body]
pub(crate) fn json_member<'a>(value: &'a serde_json::Value, key: &str) -> (r: Option<
    &'a serde_json::Value,
>)
    ensures
        match r {
            Some(found) => json_data(*value).member(key@) == Some(json_data(*found)),
            None => json_data(*value).member(key@) is None,
        },
{
    value.get(key)
}

/// Reads a string with `serde_json::Value::as_str`: its characters, and nothing for a value of
/// another kind.
#[verifier::external_body]
pub(crate) fn json_text(value: &serde_json::Value) -> (r: Option<&str>)
    ensures
        match r {
            Some(text) => json_data(*value).text() == Some(text@),
            None => json_data(*value).text() is None,
        },
{
    value.as_str()
}

/// Tells with `serde_json::Value::is_object` whether a value is an object.
#[verifier::external_body]
pub(crate) fn json_is_object(value: &serde_json::Value) -> (r: bool)
    ensures
        r == (json_data(*value) is Object),
{
    value.is_object()
}

/// Prints a value with the `Display` of `serde_json::Value`. The text depends on the contents of
/// the value alone: the members of an object are kept, and printed, in the order of their keys.
#[verifier::external_body]
pub(crate) fn print_json(value: &serde_json::Value) -> (r: String)
    ensures
        r@ == json_print(json_data(*value)),
{
    value.to_string()
}

} // verus!
