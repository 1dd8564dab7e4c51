//! Phone numbers.

use vstd::prelude::*;

verus! {

/// It represents a phone number
#[derive(Debug, Eq, PartialEq, Clone)]
pub struct PhoneNumber(String);

/// The error of reading a phone number.
#[derive(Debug, Eq, PartialEq, Clone, Copy, Structural)]
pub enum PhoneParsingError {
    /// invalid phone number: an empty value
    InvalidPhone,
}

impl View for PhoneNumber {
    type V = Seq<char>;

    closed spec fn view(&self) -> Seq<char> {
        self.0@
    }
}

impl PhoneNumber {
    /// Creates a new phone number; the value must not be empty.
    pub fn new(value: &str) -> (m: Self)
        requires
            value@.len() > 0,
        ensures
            m@ == value@,
    {
        PhoneNumber(value.to_owned())
    }

    /// Reads a phone number: any non-empty value.
    pub fn parse(s: &str) -> (r: Result<Self, PhoneParsingError>)
        ensures
            s@.len() == 0 ==> r == Err::<PhoneNumber, PhoneParsingError>(PhoneParsingError::InvalidPhone),
            s@.len() > 0 ==> (r matches Ok(m) && m@ == s@),
    {
        if s.is_empty() {
            Err(PhoneParsingError::InvalidPhone)
        } else {
            Ok(PhoneNumber(s.to_owned()))
        }
    }

    /// The text of this phone number.
    pub fn to_string(&self) -> (s: String)
        ensures
            s@ == self@,
    {
        self.0.clone()
    }
}

impl std::str::FromStr for PhoneNumber {
    type Err = PhoneParsingError;

    fn from_str(s: &str) -> (r: Result<Self, Self::Err>)
        ensures
            s@.len() == 0 ==> r == Err::<PhoneNumber, PhoneParsingError>(PhoneParsingError::InvalidPhone),
            s@.len() > 0 ==> (r matches Ok(m) && m@ == s@),
    {
        PhoneNumber::parse(s)
    }
}

} // verus!
