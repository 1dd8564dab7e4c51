//! The first form of the contact information: values that are not checked,
//! but for the website url.

use crate::common::contacts::website_urls::{parse_url, url_parse, UrlParseError};
use vstd::prelude::*;

verus! {

/// It represents a mail address
#[derive(Debug, Eq, PartialEq, Clone)]
pub struct MailAddress(String);

impl View for MailAddress {
    type V = Seq<char>;

    closed spec fn view(&self) -> Seq<char> {
        self.0@
    }
}

impl MailAddress {
    /// Creates a new mail address from any text.
    pub fn new(mail_address: &str) -> (m: Self)
        ensures
            m@ == mail_address@,
    {
        MailAddress(mail_address.to_owned())
    }

    /// The text of this mail address.
    pub fn to_string(&self) -> (s: String)
        ensures
            s@ == self@,
    {
        self.0.clone()
    }
}

impl std::str::FromStr for MailAddress {
    type Err = ();

    fn from_str(s: &str) -> (r: Result<Self, Self::Err>)
        ensures
            r matches Ok(v) && v@ == s@,
    {
        Ok(MailAddress::new(s))
    }
}

/// It represents a phone number
#[derive(Debug, Eq, PartialEq, Clone)]
pub struct PhoneNumber(String);

impl View for PhoneNumber {
    type V = Seq<char>;

    closed spec fn view(&self) -> Seq<char> {
        self.0@
    }
}

impl PhoneNumber {
    /// Creates a new phone number from any text.
    pub fn new(phone: &str) -> (p: Self)
        ensures
            p@ == phone@,
    {
        PhoneNumber(phone.to_owned())
    }

    /// The text of this phone number.
    pub fn to_string(&self) -> (s: String)
        ensures
            s@ == self@,
    {
        self.0.clone()
    }
}

impl std::str::FromStr for PhoneNumber {
    type Err = ();

    fn from_str(s: &str) -> (r: Result<Self, Self::Err>)
        ensures
            r matches Ok(v) && v@ == s@,
    {
        Ok(PhoneNumber::new(s))
    }
}

/// It represents a website url
#[derive(Debug, Eq, PartialEq, Clone)]
pub struct WebsiteUrl(String);

impl View for WebsiteUrl {
    type V = Seq<char>;

    /// The serialization of the url.
    closed spec fn view(&self) -> Seq<char> {
        self.0@
    }
}

impl WebsiteUrl {
    /// Create a new website url; `value` must be a valid url.
    pub fn new(value: &str) -> (u: WebsiteUrl)
        requires
            url_parse(value@) is Ok,
        ensures
            url_parse(value@) == Ok::<Seq<char>, UrlParseError>(u@),
    {
        match parse_url(value) {
            Ok(u) => WebsiteUrl(u),
            Err(_) => {
                assert(false);
                WebsiteUrl(String::new())
            },
        }
    }

    /// Reads a website url; `Err(())` when `value` is not a url.
    pub fn try_from(value: &str) -> (r: Result<WebsiteUrl, ()>)
        ensures
            match r {
                Ok(u) => url_parse(value@) == Ok::<Seq<char>, UrlParseError>(u@),
                Err(_) => url_parse(value@) is Err,
            },
    {
        match parse_url(value) {
            Ok(_) => Ok(WebsiteUrl::new(value)),
            Err(_) => Err(()),
        }
    }

    /// The serialization of this url.
    pub fn to_string(&self) -> (s: String)
        ensures
            s@ == self@,
    {
        self.0.clone()
    }
}

/// The contact information: mail address, website url and phone number.
#[derive(Debug, Clone, Eq, PartialEq)]
pub struct ContactInfo {
    email: Option<MailAddress>,
    website_url: Option<WebsiteUrl>,
    phone: Option<PhoneNumber>,
}

impl ContactInfo {
    /// The mail address.
    pub closed spec fn email_value(self) -> Option<MailAddress> {
        self.email
    }

    /// The website url.
    pub closed spec fn website_url_value(self) -> Option<WebsiteUrl> {
        self.website_url
    }

    /// The phone number.
    pub closed spec fn phone_value(self) -> Option<PhoneNumber> {
        self.phone
    }

    /// Creates a new contact info value.
    pub fn new(email: Option<MailAddress>, website_url: Option<WebsiteUrl>, phone: Option<PhoneNumber>) -> (c:
        Self)
        ensures
            c.email_value() == email && c.website_url_value() == website_url && c.phone_value() == phone,
    {
        ContactInfo { email, website_url, phone }
    }

    /// Returns the mail address for this contact info
    pub fn email(&self) -> (r: Option<&MailAddress>)
        ensures
            r == match self.email_value() { Some(m) => Some(&m), None => None::<&MailAddress> },
    {
        self.email.as_ref()
    }

    /// Returns the phone number for this contact info
    pub fn phone(&self) -> (r: Option<&PhoneNumber>)
        ensures
            r == match self.phone_value() { Some(p) => Some(&p), None => None::<&PhoneNumber> },
    {
        self.phone.as_ref()
    }

    /// Returns the website url for this contact info
    pub fn website_url(&self) -> (r: Option<&WebsiteUrl>)
        ensures
            r == match self.website_url_value() { Some(u) => Some(&u), None => None::<&WebsiteUrl> },
    {
        self.website_url.as_ref()
    }
}

} // verus!
