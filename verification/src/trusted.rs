//! The items of other crates that the client relies on.
//!
//! Nothing in this file is proved: each contract records what the named
//! outside function is documented to do.

use vstd::prelude::*;

verus! {

/// The error that `url::Url::parse` reports.
#[verifier::external_type_specification]
#[verifier::external_body]
pub struct ExUrlParseError(url::ParseError);

/// The error that `serde_json` reports when a text is not the expected JSON.
#[verifier::external_type_specification]
#[verifier::external_body]
pub struct ExJsonError(serde_json::Error);

/// The error that `reqwest` reports when a request could not be carried out.
#[verifier::external_type_specification]
#[verifier::external_body]
pub struct ExRequestError(reqwest::Error);

/// The error of a failed local file operation.
#[verifier::external_type_specification]
#[verifier::external_body]
pub struct ExIoError(std::io::Error);

/// An untyped JSON value.
#[verifier::external_type_specification]
#[verifier::external_body]
pub struct ExJsonValue(serde_json::Value);

/// The headers of a response.
#[verifier::external_type_specification]
#[verifier::external_body]
#[verifier::reject_recursive_types(T)]
pub struct ExHeaderMap<T>(http::HeaderMap<T>);

/// The value of a header.
#[verifier::external_type_specification]
#[verifier::external_body]
pub struct ExHeaderValue(http::HeaderValue);

/// What a header map holds: for each name under which `http::HeaderMap::get`
/// finds a value, the first value of that name, as text where
/// `http::HeaderValue::to_str` reads it as visible ASCII and absent where it
/// does not.
pub uninterp spec fn header_entries(headers: http::HeaderMap) -> Map<Seq<char>, Option<Seq<char>>>;

/// What `url::Url::parse` makes of a text: the URL in its normal form, or
/// nothing where the text is no absolute URL.
pub uninterp spec fn parsed_url(text: Seq<char>) -> Option<Seq<char>>;

/// What `url::Url::set_query` makes of a URL and a query: the URL with its
/// query replaced, or nothing where the first text is no absolute URL.
pub uninterp spec fn url_with_query(url: Seq<char>, query: Seq<char>) -> Option<Seq<char>>;

/// The compact text that `serde_json` writes for an object with one member
/// whose value is a string.
pub uninterp spec fn json_object(key: Seq<char>, value: Seq<char>) -> Seq<char>;

/// How many values `serde_json::from_str` reads from a text as an array of
/// untyped JSON values; nothing where it refuses the text.
pub uninterp spec fn json_array_len(text: Seq<char>) -> Option<nat>;

/// The number of bytes that a text takes in UTF-8.
pub open spec fn byte_len(text: Seq<char>) -> nat {
    vstd::utf8::encode_utf8(text).len()
}

/// The longest URL and the longest query, in bytes, that
/// [`set_url_query`] takes.
pub const MAX_URL_BYTES: usize = 0x1000_0000;

/// Looks a header up with `http::HeaderMap::get` and reads its value with
/// `http::HeaderValue::to_str`. The contract says that the outcome is the
/// entry of the map under that name: nothing where the map has no value of
/// the name, else the first value, whose text is absent where it is not
/// visible ASCII.
#[verifier::external_body]
pub(crate) fn read_header(headers: &http::HeaderMap, name: &str) -> (res: Option<Option<String>>)
    ensures
        match res {
            None => !header_entries(*headers).contains_key(name@),
            Some(None) => header_entries(*headers).contains_key(name@) && header_entries(
                *headers,
            )[name@] is None,
            Some(Some(text)) => header_entries(*headers).contains_key(name@) && header_entries(
                *headers,
            )[name@] == Some(text@),
        },
{
    headers.get(name).map(|value| value.to_str().ok().map(String::from))
}

/// Parses an absolute URL with `url::Url::parse` and hands back its normal
/// form. The contract only names the outcome: the same text always gives the
/// same URL or the same refusal.
#[verifier::external_body]
pub(crate) fn parse_url(text: &str) -> (res: Result<String, url::ParseError>)
    ensures
        match res {
            Ok(url) => parsed_url(text@) == Some(url@),
            Err(_) => parsed_url(text@) is None,
        },
{
    url::Url::parse(text).map(String::from)
}

/// Replaces the query of a URL with `url::Url::set_query`. The URL is handed
/// over as text and parsed first; a text that does not parse gives the
/// parser's error. `set_query` stores the length of the result in 32 bits and
/// stops the program where it does not fit, so both texts are bounded.
#[verifier::external_body]
pub(crate) fn set_url_query(url: &str, query: &str) -> (res: Result<String, url::ParseError>)
    requires
        byte_len(url@) <= MAX_URL_BYTES,
        byte_len(query@) <= MAX_URL_BYTES,
    ensures
        match res {
            Ok(changed) => url_with_query(url@, query@) == Some(changed@),
            Err(_) => url_with_query(url@, query@) is None,
        },
{
    match url::Url::parse(url) {
        Ok(mut parsed) => {
            parsed.set_query(Some(query));
            Ok(String::from(parsed))
        },
        Err(source) => Err(source),
    }
}

/// Reads a text as an array of untyped JSON values with
/// `serde_json::from_str`. The values stay opaque; the contract names their
/// number, which the same text always gives, and the refusal of any other
/// text.
#[verifier::external_body]
pub(crate) fn parse_values(text: &str) -> (res: Result<Vec<serde_json::Value>, serde_json::Error>)
    ensures
        match res {
            Ok(values) => json_array_len(text@) == Some(values@.len()),
            Err(_) => json_array_len(text@) is None,
        },
{
    serde_json::from_str(text)
}

/// Writes the JSON object with the single member `key`, a string, by the
/// `Display` impl of `serde_json::Value`.
#[verifier::external_body]
pub(crate) fn json_object_text(key: &str, value: &str) -> (res: String)
    ensures
        res@ == json_object(key@, value@),
{
    let mut members = serde_json::Map::new();
    members.insert(key.to_string(), serde_json::Value::String(value.to_string()));
    serde_json::Value::Object(members).to_string()
}

} // verus!
