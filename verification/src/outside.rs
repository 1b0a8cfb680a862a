//! Work that other crates do.
use base64::Engine;
use vstd::prelude::*;

verus! {

/// The bytes that a base64 text encodes. `None` where the text is not base64.
pub uninterp spec fn base64_decoded(text: Seq<char>) -> Option<Seq<u8>>;

/// A text with the leftmost match of a regular expression replaced. `None` where the
/// pattern is not a regular expression.
pub uninterp spec fn regex_replaced(
    pattern: Seq<char>,
    text: Seq<char>,
    replacement: Seq<char>,
) -> Option<Seq<char>>;

/// `base64::Engine::decode` of `base64::engine::general_purpose::STANDARD`: the standard
/// alphabet, with padding.
#[verifier::external_body]
pub(crate) fn decode_base64(text: &str) -> (contents: Result<Vec<u8>, base64::DecodeError>)
    ensures
        match contents {
            Ok(b) => base64_decoded(text@) == Some(b@),
            Err(_) => base64_decoded(text@) is None,
        },
{
    base64::engine::general_purpose::STANDARD.decode(text)
}

/// `regex::Regex::replace`, of the expression that `regex::Regex::new` makes of the
/// pattern. `None` where it makes none.
#[verifier::external_body]
pub(crate) fn replace_match(pattern: &str, text: &str, replacement: &str) -> (result: Option<
    String,
>)
    ensures
        result.deep_view() == regex_replaced(pattern@, text@, replacement@),
{
    regex::Regex::new(pattern).ok().map(|regex| regex.replace(text, replacement).to_string())
}

} // verus!
