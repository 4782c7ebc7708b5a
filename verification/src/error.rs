//! The ways in which a render request can fail, and the text shown for each.

use vstd::prelude::*;
use vstd::string::*;

verus! {

/// A failure of the render pipeline. Every failure ends the request.
#[derive(Debug, Clone, PartialEq, Eq)]
pub enum RenderError {
    /// The `url` parameter is not valid base64url.
    InvalidBase64,
    /// The decoded bytes are not valid UTF-8.
    InvalidUtf8,
    /// The decoded text is not an absolute URL.
    InvalidUrl,
    /// The page could not be fetched; the field holds the cause.
    FetchFailed(String),
    /// The renderer did not complete; the field holds the cause.
    RenderFailed(String),
}

/// The mathematical model of a [`RenderError`]: causes are character sequences.
pub enum Failure {
    InvalidBase64,
    InvalidUtf8,
    InvalidUrl,
    FetchFailed(Seq<char>),
    RenderFailed(Seq<char>),
}

impl Failure {
    /// The human-readable text that is sent to the client for this failure.
    pub open spec fn message(self) -> Seq<char> {
        match self {
            Failure::InvalidBase64 => "Invalid base64"@,
            Failure::InvalidUtf8 => "Invalid URL encoding"@,
            Failure::InvalidUrl => "Invalid URL"@,
            Failure::FetchFailed(cause) => "Failed to fetch URL: "@ + cause,
            Failure::RenderFailed(cause) => "Task failed: "@ + cause,
        }
    }
}

impl View for RenderError {
    type V = Failure;

    open spec fn view(&self) -> Failure {
        match self {
            RenderError::InvalidBase64 => Failure::InvalidBase64,
            RenderError::InvalidUtf8 => Failure::InvalidUtf8,
            RenderError::InvalidUrl => Failure::InvalidUrl,
            RenderError::FetchFailed(cause) => Failure::FetchFailed(cause@),
            RenderError::RenderFailed(cause) => Failure::RenderFailed(cause@),
        }
    }
}

impl RenderError {
    /// The human-readable text for this failure.
    pub fn message(&self) -> (text: String)
        ensures
            text@ == self@.message(),
    {
        match self {
            RenderError::InvalidBase64 => "Invalid base64".to_owned(),
            RenderError::InvalidUtf8 => "Invalid URL encoding".to_owned(),
            RenderError::InvalidUrl => "Invalid URL".to_owned(),
            RenderError::FetchFailed(cause) => "Failed to fetch URL: ".to_owned().concat(
                cause.as_str(),
            ),
            RenderError::RenderFailed(cause) => "Task failed: ".to_owned().concat(cause.as_str()),
        }
    }
}

} // verus!
