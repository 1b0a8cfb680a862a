//! Errors.
use vstd::prelude::*;

use crate::cdp::runtime::{ExceptionDetails, ExceptionDetailsView};

verus! {

/// The error of the JSON parser, opaque here.
#[verifier::external_type_specification]
#[verifier::external_body]
pub struct ExSerdeJsonError(serde_json::Error);

/// The error of the base64 decoder, opaque here.
#[verifier::external_type_specification]
#[verifier::external_body]
pub struct ExBase64DecodeError(base64::DecodeError);

/// Why an operation failed.
#[derive(Debug)]
pub enum CdpError {
    /// The browser, or the library, says what went wrong.
    ChromeMessage(String),
    /// A script threw.
    JavascriptException(Box<ExceptionDetails>),
    /// What was asked for does not exist.
    NotFound,
    /// An element could not be scrolled into view.
    ScrollingFailed(String),
    /// A JSON value is not of the type that was expected.
    Serde(serde_json::Error),
    /// Binary data is not valid base64.
    Decode(base64::DecodeError),
    /// A request could not be carried out.
    Outside(String),
}

/// The contents of a [`CdpError`]. The errors of outside crates are told apart by
/// their kind alone.
pub enum ErrorView {
    ChromeMessage(Seq<char>),
    JavascriptException(ExceptionDetailsView),
    NotFound,
    ScrollingFailed(Seq<char>),
    Serde,
    Decode,
    Outside(Seq<char>),
}

impl DeepView for CdpError {
    type V = ErrorView;

    open spec fn deep_view(&self) -> ErrorView {
        match self {
            CdpError::ChromeMessage(text) => ErrorView::ChromeMessage(text@),
            CdpError::JavascriptException(details) => ErrorView::JavascriptException(
                details.deep_view(),
            ),
            CdpError::NotFound => ErrorView::NotFound,
            CdpError::ScrollingFailed(text) => ErrorView::ScrollingFailed(text@),
            CdpError::Serde(_) => ErrorView::Serde,
            CdpError::Decode(_) => ErrorView::Decode,
            CdpError::Outside(text) => ErrorView::Outside(text@),
        }
    }
}

impl CdpError {
    /// An error that consists of a message.
    pub fn msg(text: &str) -> (error: CdpError)
        ensures
            error.deep_view() == ErrorView::ChromeMessage(text@),
    {
        CdpError::ChromeMessage(text.to_owned())
    }
}

} // verus!
