//! The contact information of an organization: mail address, phone number, website.

pub mod emails;
pub mod phones;
pub mod website_urls;

pub use emails::{MailAddress, MailAddressParsingError};
pub use phones::{PhoneNumber, PhoneParsingError};
pub use website_urls::{url_parse, UrlParseError, WebsiteUrl, WebsiteUrlParsingError};

use vstd::prelude::*;

verus! {

/// The text of an optional mail address.
pub open spec fn mail_text(m: Option<MailAddress>) -> Option<Seq<char>> {
    match m {
        Some(m) => Some(m@),
        None => None,
    }
}

/// The text of an optional phone number.
pub open spec fn phone_text(p: Option<PhoneNumber>) -> Option<Seq<char>> {
    match p {
        Some(p) => Some(p@),
        None => None,
    }
}

/// The serialization of an optional website url.
pub open spec fn url_text(u: Option<WebsiteUrl>) -> Option<Seq<char>> {
    match u {
        Some(u) => Some(u@),
        None => None,
    }
}

/// The contact information provides the means to communicate with an organization.
#[derive(Debug, Clone, Eq, PartialEq)]
pub struct ContactInformation {
    /// the email address
    pub email: Option<MailAddress>,
    /// the phone number
    pub phone: Option<PhoneNumber>,
    /// the website url
    pub website_url: Option<WebsiteUrl>,
}

impl Default for ContactInformation {
    /// No contact at all.
    fn default() -> (c: Self)
        ensures
            c.email is None && c.phone is None && c.website_url is None,
    {
        ContactInformation { email: None, phone: None, website_url: None }
    }
}

impl ContactInformation {
    /// Creates a new contact information value.
    pub fn new(email: Option<MailAddress>, website_url: Option<WebsiteUrl>, phone: Option<PhoneNumber>) -> (c:
        Self)
        ensures
            c.email == email && c.website_url == website_url && c.phone == phone,
    {
        ContactInformation { email, website_url, phone }
    }

    /// Returns the mail address for this contact info
    pub fn email(&self) -> (r: Option<&MailAddress>)
        ensures
            r == match self.email { Some(m) => Some(&m), None => None::<&MailAddress> },
    {
        self.email.as_ref()
    }

    /// Returns the phone number for this contact info
    pub fn phone(&self) -> (r: Option<&PhoneNumber>)
        ensures
            r == match self.phone { Some(p) => Some(&p), None => None::<&PhoneNumber> },
    {
        self.phone.as_ref()
    }

    /// Returns the website url for this contact info
    pub fn website_url(&self) -> (r: Option<&WebsiteUrl>)
        ensures
            r == match self.website_url { Some(u) => Some(&u), None => None::<&WebsiteUrl> },
    {
        self.website_url.as_ref()
    }

    /// Creates a new contact info builder, with nothing set
    pub fn builder() -> (b: ContactInformationBuilder)
        ensures
            b.email_input() is None && b.phone_input() is None && b.website_url_input() is None,
    {
        ContactInformationBuilder::default()
    }
}

/// The errors of building the contact information.
#[derive(Debug, Eq, PartialEq, Clone, Copy, Structural)]
pub enum ContactInformationError {
    /// invalid mail address
    InvalidEmail(MailAddressParsingError),
    /// invalid phone number
    InvalidPhoneNumber(PhoneParsingError),
    /// invalid website url
    InvalidWebsiteUrl(WebsiteUrlParsingError),
}

/// Builds the contact information from texts; the texts are checked by `build`.
#[derive(Debug)]
pub struct ContactInformationBuilder {
    email: Option<String>,
    phone: Option<String>,
    website_url: Option<String>,
}

impl Default for ContactInformationBuilder {
    /// A builder with nothing set.
    fn default() -> (b: Self)
        ensures
            b.email_input() is None && b.phone_input() is None && b.website_url_input() is None,
    {
        ContactInformationBuilder { email: None, phone: None, website_url: None }
    }
}

/// The text of an optional string.
pub open spec fn opt_text(s: Option<String>) -> Option<Seq<char>> {
    match s {
        Some(s) => Some(s@),
        None => None,
    }
}

/// What building the contact information from these texts gives: the first
/// invalid text (mail address, then phone, then website url) is the error.
pub open spec fn contact_information_result(
    email: Option<Seq<char>>,
    phone: Option<Seq<char>>,
    website_url: Option<Seq<char>>,
) -> Result<(Option<Seq<char>>, Option<Seq<char>>, Option<Seq<char>>), ContactInformationError> {
    if email matches Some(e) && e.len() == 0 {
        Err(ContactInformationError::InvalidEmail(MailAddressParsingError::InvalidMailAddress))
    } else if phone matches Some(p) && p.len() == 0 {
        Err(ContactInformationError::InvalidPhoneNumber(PhoneParsingError::InvalidPhone))
    } else {
        match website_url {
            Some(w) => match url_parse(w) {
                Ok(u) => Ok((email, phone, Some(u))),
                Err(e) => Err(
                    ContactInformationError::InvalidWebsiteUrl(WebsiteUrlParsingError::InvalidWebsiteUrl(e)),
                ),
            },
            None => Ok((email, phone, None)),
        }
    }
}

impl ContactInformationBuilder {
    /// The mail address text set so far.
    pub closed spec fn email_input(self) -> Option<Seq<char>> {
        opt_text(self.email)
    }

    /// The phone number text set so far.
    pub closed spec fn phone_input(self) -> Option<Seq<char>> {
        opt_text(self.phone)
    }

    /// The website url text set so far.
    pub closed spec fn website_url_input(self) -> Option<Seq<char>> {
        opt_text(self.website_url)
    }

    /// Set the mail address
    pub fn email(self, mail_address: &str) -> (b: Self)
        ensures
            b.email_input() == Some(mail_address@),
            b.phone_input() == self.phone_input(),
            b.website_url_input() == self.website_url_input(),
    {
        ContactInformationBuilder { email: Some(mail_address.to_owned()), ..self }
    }

    /// Set the phone number
    pub fn phone(self, phone: &str) -> (b: Self)
        ensures
            b.phone_input() == Some(phone@),
            b.email_input() == self.email_input(),
            b.website_url_input() == self.website_url_input(),
    {
        ContactInformationBuilder { phone: Some(phone.to_owned()), ..self }
    }

    /// Set the website url
    pub fn website_url(self, website_url: &str) -> (b: Self)
        ensures
            b.website_url_input() == Some(website_url@),
            b.email_input() == self.email_input(),
            b.phone_input() == self.phone_input(),
    {
        ContactInformationBuilder { website_url: Some(website_url.to_owned()), ..self }
    }

    /// Checks the texts set and builds the contact information.
    pub fn build(self) -> (r: Result<ContactInformation, ContactInformationError>)
        ensures
            match contact_information_result(self.email_input(), self.phone_input(), self.website_url_input()) {
                Ok((e, p, w)) => r matches Ok(c) && mail_text(c.email) == e && phone_text(c.phone) == p
                    && url_text(c.website_url) == w,
                Err(err) => r == Err::<ContactInformation, ContactInformationError>(err),
            },
    {
        let email = match self.email {
            Some(email) => match MailAddress::parse(email.as_str()) {
                Ok(m) => Some(m),
                Err(e) => {
                    return Err(ContactInformationError::InvalidEmail(e));
                },
            },
            None => None,
        };
        let phone = match self.phone {
            Some(phone) => match PhoneNumber::parse(phone.as_str()) {
                Ok(p) => Some(p),
                Err(e) => {
                    return Err(ContactInformationError::InvalidPhoneNumber(e));
                },
            },
            None => None,
        };
        let website_url = match self.website_url {
            Some(website_url) => match WebsiteUrl::parse(website_url.as_str()) {
                Ok(u) => Some(u),
                Err(e) => {
                    return Err(ContactInformationError::InvalidWebsiteUrl(e));
                },
            },
            None => None,
        };
        Ok(ContactInformation { email, phone, website_url })
    }
}

} // verus!
