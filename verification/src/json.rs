//! JSON values and what is read of them.
use vstd::prelude::*;

verus! {

/// A JSON value, held as its text.
#[derive(Debug, PartialEq, Eq)]
pub struct Json(pub String);

impl DeepView for Json {
    type V = Seq<char>;

    open spec fn deep_view(&self) -> Seq<char> {
        self.0@
    }
}

impl Clone for Json {
    fn clone(&self) -> (copy: Json)
        ensures
            copy == *self,
    {
        Json(self.0.clone())
    }
}

/// The string that a JSON text denotes. `None` where the text is not JSON or denotes
/// something else than a string.
pub uninterp spec fn json_string(text: Seq<char>) -> Option<Seq<char>>;

/// The string or null that a JSON text denotes. `None` where the text is not JSON or
/// denotes something else.
pub uninterp spec fn json_optional_string(text: Seq<char>) -> Option<Option<Seq<char>>>;

/// The bytes that a JSON text denotes, be it as a string or as an array of numbers.
/// `None` where the text is not JSON or denotes something else.
pub uninterp spec fn json_bytes(text: Seq<char>) -> Option<Seq<u8>>;

/// A JSON text in the compact form in which serde_json prints it. `None` where the text
/// is not JSON.
pub uninterp spec fn json_compact(text: Seq<char>) -> Option<Seq<char>>;

/// The JSON text that serde_json prints of a string.
pub uninterp spec fn json_quoted(string: Seq<char>) -> Seq<char>;

/// `serde_json::from_value::<String>`, on the value that `serde_json::from_str` reads of
/// the text. It succeeds where the value is a string, which it then returns.
#[verifier::external_body]
pub(crate) fn string_of(json: &Json) -> (string: Result<String, serde_json::Error>)
    ensures
        match string {
            Ok(s) => json_string(json.0@) == Some(s@),
            Err(_) => json_string(json.0@) is None,
        },
{
    serde_json::from_str(&json.0).and_then(serde_json::from_value::<String>)
}

/// `serde_json::from_value::<Option<String>>`, on the value that `serde_json::from_str`
/// reads of the text. It succeeds where the value is null or a string. A text that
/// denotes a string denotes an optional string too.
#[verifier::external_body]
pub(crate) fn optional_string_of(json: &Json) -> (string: Result<Option<String>, serde_json::Error>)
    ensures
        match string {
            Ok(s) => json_optional_string(json.0@) == Some(s.deep_view()),
            Err(_) => json_optional_string(json.0@) is None,
        },
        json.0@ == "null"@ ==> string is Ok && string->Ok_0 is None,
        json_string(json.0@) is Some ==> string is Ok && string->Ok_0.deep_view()
            == json_string(json.0@),
{
    serde_json::from_str(&json.0).and_then(serde_json::from_value::<Option<String>>)
}

/// `serde_json::from_value::<bytes::Bytes>`, on the value that `serde_json::from_str`
/// reads of the text. A string yields its UTF-8 encoding.
#[verifier::external_body]
pub(crate) fn bytes_of(json: &Json) -> (contents: Result<Vec<u8>, serde_json::Error>)
    ensures
        match contents {
            Ok(b) => json_bytes(json.0@) == Some(b@),
            Err(_) => json_bytes(json.0@) is None,
        },
        json_string(json.0@) is Some ==> contents is Ok && contents->Ok_0@
            == vstd::utf8::encode_utf8(json_string(json.0@)->0),
{
    serde_json::from_str(&json.0).and_then(serde_json::from_value::<bytes::Bytes>).map(
        |b| b.to_vec(),
    )
}

/// `<serde_json::Value as ToString>::to_string`, on the value that `serde_json::from_str`
/// reads of the text. A value that is a string is printed as [`quoted`] prints it.
#[verifier::external_body]
pub(crate) fn compact(json: &Json) -> (text: Result<String, serde_json::Error>)
    ensures
        match text {
            Ok(t) => json_compact(json.0@) == Some(t@),
            Err(_) => json_compact(json.0@) is None,
        },
        json_string(json.0@) is Some ==> text is Ok && text->Ok_0@ == json_quoted(
            json_string(json.0@)->0,
        ),
{
    serde_json::from_str::<serde_json::Value>(&json.0).map(|value| value.to_string())
}

/// `serde::de::Error::custom` of `serde_json::Error`: an error with a message of its own.
/// Nothing is claimed of it.
#[verifier::external_body]
pub(crate) fn json_error(message: &str) -> (error: serde_json::Error) {
    serde::de::Error::custom(message)
}

/// `<serde_json::Value as ToString>::to_string`, on the value that is the string. What it
/// prints denotes that string again.
#[verifier::external_body]
pub(crate) fn quoted(string: &str) -> (json: Json)
    ensures
        json.0@ == json_quoted(string@),
        json_string(json.0@) == Some(string@),
{
    Json(serde_json::Value::from(string).to_string())
}

} // verus!
