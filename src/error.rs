//! The failures of icon inference.

use url::ParseError as UrlError;
use vstd::prelude::*;
use vstd::string::*;

verus! {

#[verifier::external_type_specification]
#[verifier::external_body]
pub struct ExUrlError(UrlError);

#[verifier::external_type_specification]
#[verifier::external_body]
pub struct ExImageError(image::ImageError);

#[verifier::external_type_specification]
#[verifier::external_body]
pub struct ExParseIntError(std::num::ParseIntError);

/// Malformed input text.
#[derive(Debug)]
pub enum ParseError {
    /// A malformed integer.
    Int(std::num::ParseIntError),
    /// A malformed URL.
    Url(UrlError),
    /// A size that is not of the form `WxH`; holds the input.
    Size(String),
}

/// Domain failures found while looking for icons.
#[derive(Debug)]
pub enum ScrapeError {
    /// No known content type could be sniffed from the bytes of the given URL.
    NoMime(String),
    /// Not one candidate could be downloaded and classified.
    NoIconsFound,
}

/// Why inference failed.
#[derive(Debug)]
pub enum Error {
    /// Parsing of a URL, integer or size failed.
    Parse(ParseError),
    /// A page or a candidate could not be fetched; holds the transport's message.
    Download(String),
    /// The downloaded bytes could not be decoded as an image.
    Image(image::ImageError),
    /// Markup or candidates did not yield an icon.
    Scrape(ScrapeError),
}

/// `d` is the text that `Display` gives for `e`.
pub open spec fn displays<T: std::fmt::Display>(e: &T, d: Seq<char>) -> bool {
    exists|t: String| #[trigger] to_string_from_display_ensures::<T>(e, t) && t@ == d
}

fn prefixed(prefix: &str, rest: &str) -> (r: String)
    ensures
        r@ == prefix@ + rest@,
{
    let mut r = String::from_str(prefix);
    r.append(rest);
    r
}

impl ParseError {
    /// `m` is the message of this error.
    pub open spec fn describes(&self, m: Seq<char>) -> bool {
        match self {
            ParseError::Int(e) => exists|d: Seq<char>| #[trigger] displays(e, d) && m == "int: "@ + d,
            ParseError::Url(e) => exists|d: Seq<char>| #[trigger] displays(e, d) && m == "url: "@ + d,
            ParseError::Size(s) => m == "size: "@ + s@,
        }
    }

    /// A message for people: the kind of text that failed, and why.
    pub fn message(&self) -> (r: String)
        ensures
            self.describes(r@),
    {
        match self {
            ParseError::Int(e) => {
                let d = e.to_string();
                assert(displays(e, d@));
                prefixed("int: ", d.as_str())
            },
            ParseError::Url(e) => {
                let d = e.to_string();
                assert(displays(e, d@));
                prefixed("url: ", d.as_str())
            },
            ParseError::Size(s) => prefixed("size: ", s.as_str()),
        }
    }
}

impl ScrapeError {
    /// The message of this error.
    pub open spec fn spec_message(&self) -> Seq<char> {
        match self {
            ScrapeError::NoMime(href) => "could not detect mime for "@ + href@,
            ScrapeError::NoIconsFound => "no icons found"@,
        }
    }

    /// A message for people.
    pub fn message(&self) -> (r: String)
        ensures
            r@ == self.spec_message(),
    {
        match self {
            ScrapeError::NoMime(href) => prefixed("could not detect mime for ", href.as_str()),
            ScrapeError::NoIconsFound => String::from_str("no icons found"),
        }
    }
}

impl Error {
    /// `m` is the message of this error.
    pub open spec fn describes(&self, m: Seq<char>) -> bool {
        match self {
            Error::Parse(p) => exists|d: Seq<char>| #[trigger] p.describes(d) && m == "parsing: "@ + d,
            Error::Download(s) => m == "downloading: "@ + s@,
            Error::Image(e) => exists|d: Seq<char>| #[trigger] displays(e, d) && m == "image: "@ + d,
            Error::Scrape(s) => m == "scraping: "@ + s.spec_message(),
        }
    }

    /// A message for people: the stage that failed, and why.
    pub fn message(&self) -> (r: String)
        ensures
            self.describes(r@),
    {
        match self {
            Error::Parse(p) => {
                let d = p.message();
                prefixed("parsing: ", d.as_str())
            },
            Error::Download(s) => prefixed("downloading: ", s.as_str()),
            Error::Image(e) => {
                let d = e.to_string();
                assert(displays(e, d@));
                prefixed("image: ", d.as_str())
            },
            Error::Scrape(s) => {
                let d = s.message();
                prefixed("scraping: ", d.as_str())
            },
        }
    }
}

impl From<ParseError> for Error {
    fn from(e: ParseError) -> (r: Error) {
        Error::Parse(e)
    }
}

impl vstd::std_specs::convert::FromSpecImpl<ParseError> for Error {
    open spec fn obeys_from_spec() -> bool {
        true
    }

    open spec fn from_spec(e: ParseError) -> Error {
        Error::Parse(e)
    }
}

impl From<UrlError> for ParseError {
    fn from(e: UrlError) -> (r: ParseError) {
        ParseError::Url(e)
    }
}

impl vstd::std_specs::convert::FromSpecImpl<UrlError> for ParseError {
    open spec fn obeys_from_spec() -> bool {
        true
    }

    open spec fn from_spec(e: UrlError) -> ParseError {
        ParseError::Url(e)
    }
}

impl From<UrlError> for Error {
    fn from(e: UrlError) -> (r: Error) {
        Error::Parse(ParseError::Url(e))
    }
}

impl vstd::std_specs::convert::FromSpecImpl<UrlError> for Error {
    open spec fn obeys_from_spec() -> bool {
        true
    }

    open spec fn from_spec(e: UrlError) -> Error {
        Error::Parse(ParseError::Url(e))
    }
}

impl From<std::num::ParseIntError> for ParseError {
    fn from(e: std::num::ParseIntError) -> (r: ParseError) {
        ParseError::Int(e)
    }
}

impl vstd::std_specs::convert::FromSpecImpl<std::num::ParseIntError> for ParseError {
    open spec fn obeys_from_spec() -> bool {
        true
    }

    open spec fn from_spec(e: std::num::ParseIntError) -> ParseError {
        ParseError::Int(e)
    }
}

impl From<image::ImageError> for Error {
    fn from(e: image::ImageError) -> (r: Error) {
        Error::Image(e)
    }
}

impl vstd::std_specs::convert::FromSpecImpl<image::ImageError> for Error {
    open spec fn obeys_from_spec() -> bool {
        true
    }

    open spec fn from_spec(e: image::ImageError) -> Error {
        Error::Image(e)
    }
}

} // verus!
