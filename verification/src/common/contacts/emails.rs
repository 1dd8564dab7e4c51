//! Email addresss.

use vstd::prelude::*;

verus! {

/// It represents a email address
#[derive(Debug, Eq, PartialEq, Clone)]
pub struct MailAddress(String);

/// The error of reading a email address.
#[derive(Debug, Eq, PartialEq, Clone, Copy, Structural)]
pub enum MailAddressParsingError {
    /// invalid email address: an empty value
    InvalidMailAddress,
}

impl View for MailAddress {
    type V = Seq<char>;

    closed spec fn view(&self) -> Seq<char> {
        self.0@
    }
}

impl MailAddress {
    /// Creates a new email address; the value must not be empty.
    pub fn new(value: &str) -> (m: Self)
        requires
            value@.len() > 0,
        ensures
            m@ == value@,
    {
        MailAddress(value.to_owned())
    }

    /// Reads a email address: any non-empty value.
    pub fn parse(s: &str) -> (r: Result<Self, MailAddressParsingError>)
        ensures
            s@.len() == 0 ==> r == Err::<MailAddress, MailAddressParsingError>(MailAddressParsingError::InvalidMailAddress),
            s@.len() > 0 ==> (r matches Ok(m) && m@ == s@),
    {
        if s.is_empty() {
            Err(MailAddressParsingError::InvalidMailAddress)
        } else {
            Ok(MailAddress(s.to_owned()))
        }
    }

    /// The text of this email address.
    pub fn to_string(&self) -> (s: String)
        ensures
            s@ == self@,
    {
        self.0.clone()
    }
}

impl std::str::FromStr for MailAddress {
    type Err = MailAddressParsingError;

    fn from_str(s: &str) -> (r: Result<Self, Self::Err>)
        ensures
            s@.len() == 0 ==> r == Err::<MailAddress, MailAddressParsingError>(MailAddressParsingError::InvalidMailAddress),
            s@.len() > 0 ==> (r matches Ok(m) && m@ == s@),
    {
        MailAddress::parse(s)
    }
}

} // verus!
