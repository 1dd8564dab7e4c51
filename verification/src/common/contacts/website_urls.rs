//! Website urls.

use url::ParseError as P;
use vstd::prelude::*;

verus! {

/// The errors that `url::Url::parse` reports.
#[derive(Debug, PartialEq, Eq, Clone, Copy, Structural)]
pub enum UrlParseError {
    /// empty host
    EmptyHost,
    /// invalid international domain name
    IdnaError,
    /// invalid port number
    InvalidPort,
    /// invalid IPv4 address
    InvalidIpv4Address,
    /// invalid IPv6 address
    InvalidIpv6Address,
    /// invalid domain character
    InvalidDomainCharacter,
    /// relative URL without a base
    RelativeUrlWithoutBase,
    /// relative URL with a cannot-be-a-base base
    RelativeUrlWithCannotBeABaseBase,
    /// a cannot-be-a-base URL doesn’t have a host to set
    SetHostOnCannotBeABaseUrl,
    /// URLs more than 4 GB are not supported
    Overflow,
    /// an error that a later version of the `url` crate may add
    Other,
}

/// What `url::Url::parse` gives for the characters `s`: the serialization of
/// the url, or the error.
pub uninterp spec fn url_parse(s: Seq<char>) -> Result<Seq<char>, UrlParseError>;

/// Calls `url::Url::parse`, and gives the serialization of the url
/// (`Url::to_string`, which is how two urls compare) or the error; the
/// result is named `url_parse` of the input, and nothing more is stated of it.
#[verifier::external_body]
pub(crate) fn parse_url(value: &str) -> (r: Result<String, UrlParseError>)
    ensures
        match r {
            Ok(u) => url_parse(value@) == Ok::<Seq<char>, UrlParseError>(u@),
            Err(e) => url_parse(value@) == Err::<Seq<char>, UrlParseError>(e),
        },
{
    match url::Url::parse(value) {
        Ok(u) => Ok(u.to_string()),
        Err(P::EmptyHost) => Err(UrlParseError::EmptyHost),
        Err(P::IdnaError) => Err(UrlParseError::IdnaError),
        Err(P::InvalidPort) => Err(UrlParseError::InvalidPort),
        Err(P::InvalidIpv4Address) => Err(UrlParseError::InvalidIpv4Address),
        Err(P::InvalidIpv6Address) => Err(UrlParseError::InvalidIpv6Address),
        Err(P::InvalidDomainCharacter) => Err(UrlParseError::InvalidDomainCharacter),
        Err(P::RelativeUrlWithoutBase) => Err(UrlParseError::RelativeUrlWithoutBase),
        Err(P::RelativeUrlWithCannotBeABaseBase) => Err(UrlParseError::RelativeUrlWithCannotBeABaseBase),
        Err(P::SetHostOnCannotBeABaseUrl) => Err(UrlParseError::SetHostOnCannotBeABaseUrl),
        Err(P::Overflow) => Err(UrlParseError::Overflow),
        Err(_) => Err(UrlParseError::Other),
    }
}

/// The error of reading a website url.
#[derive(Debug, Eq, PartialEq, Clone, Copy, Structural)]
pub enum WebsiteUrlParsingError {
    /// invalid website url
    InvalidWebsiteUrl(UrlParseError),
}

/// It represents a website url
#[derive(Debug, Eq, PartialEq, Clone)]
pub struct WebsiteUrl(String);

impl View for WebsiteUrl {
    type V = Seq<char>;

    /// The serialization of the url.
    closed spec fn view(&self) -> Seq<char> {
        self.0@
    }
}

impl WebsiteUrl {
    /// Create a new website url; `value` must be a valid url.
    pub fn new(value: &str) -> (u: WebsiteUrl)
        requires
            url_parse(value@) is Ok,
        ensures
            url_parse(value@) == Ok::<Seq<char>, UrlParseError>(u@),
    {
        match parse_url(value) {
            Ok(u) => WebsiteUrl(u),
            Err(_) => {
                assert(false);
                WebsiteUrl(String::new())
            },
        }
    }

    /// Reads a website url.
    pub fn parse(value: &str) -> (r: Result<WebsiteUrl, WebsiteUrlParsingError>)
        ensures
            match r {
                Ok(u) => url_parse(value@) == Ok::<Seq<char>, UrlParseError>(u@),
                Err(WebsiteUrlParsingError::InvalidWebsiteUrl(e)) => url_parse(value@) == Err::<
                    Seq<char>,
                    UrlParseError,
                >(e),
            },
    {
        match parse_url(value) {
            Ok(_) => Ok(WebsiteUrl::new(value)),
            Err(e) => Err(WebsiteUrlParsingError::InvalidWebsiteUrl(e)),
        }
    }

    /// The serialization of this url.
    pub fn to_string(&self) -> (s: String)
        ensures
            s@ == self@,
    {
        self.0.clone()
    }
}

impl std::str::FromStr for WebsiteUrl {
    type Err = WebsiteUrlParsingError;

    fn from_str(s: &str) -> (r: Result<Self, Self::Err>)
        ensures
            match r {
                Ok(u) => url_parse(s@) == Ok::<Seq<char>, UrlParseError>(u@),
                Err(WebsiteUrlParsingError::InvalidWebsiteUrl(e)) => url_parse(s@) == Err::<
                    Seq<char>,
                    UrlParseError,
                >(e),
            },
    {
        WebsiteUrl::parse(s)
    }
}

} // verus!
