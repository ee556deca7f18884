//! The errors of this layer: why a request was refused.

use vstd::prelude::*;
use vstd::string::*;

verus! {

/// Why a request was refused. Each kind carries the text that was refused.
#[derive(Clone, Debug, PartialEq, Eq)]
#[non_exhaustive]
pub enum RequestError {
    /// The version text is neither `latest` nor a semantic version.
    MalformedVersion(String),
    /// The address of a specific port binding is no IP literal.
    MalformedAddress(String),
}

/// Mathematical model of [`RequestError`].
pub enum RequestErrorView {
    MalformedVersion(Seq<char>),
    MalformedAddress(Seq<char>),
}

impl View for RequestError {
    type V = RequestErrorView;

    open spec fn view(&self) -> RequestErrorView {
        match self {
            RequestError::MalformedVersion(text) => RequestErrorView::MalformedVersion(
                text@,
            ),
            RequestError::MalformedAddress(text) => RequestErrorView::MalformedAddress(
                text@,
            ),
        }
    }
}

/// The message of an error: what was wrong, a colon and a space, and the text
/// that was refused.
pub open spec fn error_message(error: RequestErrorView) -> Seq<char> {
    match error {
        RequestErrorView::MalformedVersion(text) => "malformed version: "@ + text,
        RequestErrorView::MalformedAddress(text) => "malformed address: "@ + text,
    }
}

impl RequestError {
    /// The message of the error.
    pub fn message(&self) -> (text: String)
        ensures
            text@ == error_message(self@),
    {
        match self {
            RequestError::MalformedVersion(refused) => {
                String::from_str("malformed version: ").concat(refused.as_str())
            },
            RequestError::MalformedAddress(refused) => {
                String::from_str("malformed address: ").concat(refused.as_str())
            },
        }
    }
}

} // verus!
