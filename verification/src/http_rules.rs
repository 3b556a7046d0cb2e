//! What HTTP allows and prints, by the `http` types that `axum` hands on and the URLs of
//! `reqwest`.

use vstd::prelude::*;

use crate::text::decimal;

verus! {

/// The reason phrase that goes with a status code.
pub uninterp spec fn status_reason(code: u16) -> Seq<char>;

/// Whether a text parses as an absolute URL.
pub uninterp spec fn parses_as_url(text: Seq<char>) -> bool;

/// A status code with its reason phrase.
pub open spec fn status_line(code: u16) -> Seq<char> {
    decimal(code as nat) + " "@ + status_reason(code)
}

/// Whether `c` may stand in the name of a header.
pub open spec fn is_token_char(c: char) -> bool {
    ||| '0' <= c <= '9'
    ||| 'a' <= c <= 'z'
    ||| 'A' <= c <= 'Z'
    ||| "!#$%&'*+-.^_`|~"@.contains(c)
}

/// Whether `name` can be the name of a header.
pub open spec fn valid_header_name(name: Seq<char>) -> bool {
    &&& 1 <= name.len() <= 65535
    &&& forall|i: int| 0 <= i < name.len() ==> is_token_char(#[trigger] name[i])
}

/// Whether `c` may stand in the value of a header.
pub open spec fn is_header_value_char(c: char) -> bool {
    c == '\t' || (c as u32 >= 32 && c as u32 != 127)
}

/// Whether `value` can be the value of a header.
pub open spec fn valid_header_value(value: Seq<char>) -> bool {
    forall|i: int| 0 <= i < value.len() ==> is_header_value_char(#[trigger] value[i])
}

/// Prints a status code with the `Display` of `http::StatusCode`: the code, a space, and its
/// reason phrase.
#[verifier::external_body]
pub(crate) fn print_status(code: u16) -> (r: String)
    requires
        100 <= code <= 999,
    ensures
        r@ == decimal(code as nat) + " "@ + status_reason(code),
{
    axum::http::StatusCode::from_u16(code).unwrap().to_string()
}

/// Asks `http::HeaderName::from_bytes` whether a text can be the name of a header: it has to hold
/// between one and 65535 characters, each of them a token character.
#[verifier::external_body]
pub(crate) fn is_header_name(name: &str) -> (r: bool)
    ensures
        r == valid_header_name(name@),
{
    axum::http::HeaderName::from_bytes(name.as_bytes()).is_ok()
}

/// Asks `http::HeaderValue::from_str` whether a text can be the value of a header: it has to hold
/// no control character of ASCII but the tab.
#[verifier::external_body]
pub(crate) fn is_header_value(value: &str) -> (r: bool)
    ensures
        r == valid_header_value(value@),
{
    axum::http::HeaderValue::from_str(value).is_ok()
}

/// Asks `reqwest::Url::parse` whether a text is an absolute URL. The answer depends on the text
/// alone.
#[verifier::external_body]
pub(crate) fn is_url(text: &str) -> (r: bool)
    ensures
        r == parses_as_url(text@),
{
    reqwest::Url::parse(text).is_ok()
}

} // verus!
