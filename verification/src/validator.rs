//! Validation of the decoded text as an absolute URL.

use crate::error::RenderError;
use vstd::prelude::*;
use vstd::string::*;

verus! {

/// `url::ParseError`, the parser's reason for rejecting a text. It is carried
/// as an opaque value; nothing is read from it.
#[verifier::external_type_specification]
#[verifier::external_body]
pub struct ExParseError(url::ParseError);

/// The serialization of the absolute URL that the URL parser reads from
/// `text`, or `None` where it rejects `text`.
pub uninterp spec fn url_parsing(text: Seq<char>) -> Option<Seq<char>>;

/// Calls `url::Url::parse` and takes the URL's serialization.
///
/// Trusted: the result is the parser's reading of `text`, a function of the
/// text alone, and text without a colon is rejected: it has no scheme, and
/// there is no base to resolve it against.
#[verifier::external_body]
fn parse_absolute(text: &str) -> (r: Result<String, url::ParseError>)
    ensures
        match r {
            Ok(href) => url_parsing(text@) == Some(href@),
            Err(_) => url_parsing(text@) is None,
        },
        !text@.contains(':') ==> r is Err,
{
    url::Url::parse(text).map(String::from)
}

/// An absolute URL in the parser's serialization. It is both the address
/// that is fetched and the base against which the page's links resolve.
#[derive(Debug, PartialEq, Eq)]
pub struct ValidatedUrl {
    href: String,
}

impl View for ValidatedUrl {
    type V = Seq<char>;

    closed spec fn view(&self) -> Seq<char> {
        self.href@
    }
}

impl ValidatedUrl {
    /// Every value is the serialization of some text that the parser accepted.
    #[verifier::type_invariant]
    closed spec fn parsed(self) -> bool {
        exists|raw: Seq<char>| #[trigger] url_parsing(raw) == Some(self.href@)
    }

    /// The URL as text.
    pub fn as_str(&self) -> (text: &str)
        ensures
            text@ == self@,
    {
        self.href.as_str()
    }
}

/// Checks that `url_str` is an absolute URL and returns it in structured,
/// serialized form. Every scheme is accepted. Malformed and relative text,
/// in particular any text without a colon, fails with `InvalidUrl`.
pub fn validate_url(url_str: &str) -> (r: Result<ValidatedUrl, RenderError>)
    ensures
        match url_parsing(url_str@) {
            Some(href) => r is Ok && r->Ok_0@ == href,
            None => r == Err::<ValidatedUrl, RenderError>(RenderError::InvalidUrl),
        },
        !url_str@.contains(':') ==> r == Err::<ValidatedUrl, RenderError>(
            RenderError::InvalidUrl,
        ),
{
    match parse_absolute(url_str) {
        Ok(href) => {
            assert(url_parsing(url_str@) == Some(href@));
            Ok(ValidatedUrl { href })
        },
        Err(_) => Err(RenderError::InvalidUrl),
    }
}

} // verus!
