//! The catalog item number.

use crate::common::slug::{slugify_text, Slug};
use crate::common::validation::{check_length, is_length_error};
use validator::ValidationError;
use vstd::prelude::*;

verus! {

/// It represent a catalog item number.
#[derive(Debug, PartialEq, Eq, PartialOrd, Ord)]
pub struct ItemNumber(String);

impl Clone for ItemNumber {
    fn clone(&self) -> (r: Self)
        ensures
            r@ == self@,
    {
        ItemNumber(self.0.clone())
    }
}

/// The error of reading an item number.
#[derive(Debug, PartialEq, Eq, Clone, Copy, Structural)]
pub enum ItemNumberError {
    /// Item number cannot be blank
    EmptyItemNumber,
}

impl View for ItemNumber {
    type V = Seq<char>;

    closed spec fn view(&self) -> Seq<char> {
        self.0@
    }
}

impl ItemNumber {
    /// Creates a new ItemNumber from the string slice; the value must not be empty.
    pub fn new(value: &str) -> (n: Self)
        requires
            value@.len() > 0,
        ensures
            n@ == value@,
    {
        ItemNumber(value.to_owned())
    }

    /// Reads an item number: `Err` for an empty value.
    pub fn parse(s: &str) -> (r: Result<Self, ItemNumberError>)
        ensures
            s@.len() == 0 ==> r == Err::<ItemNumber, ItemNumberError>(ItemNumberError::EmptyItemNumber),
            s@.len() > 0 ==> (r matches Ok(n) && n@ == s@),
    {
        if s.is_empty() {
            Err(ItemNumberError::EmptyItemNumber)
        } else {
            Ok(ItemNumber(s.to_owned()))
        }
    }

    /// Returns the item number value.
    pub fn value(&self) -> (s: &str)
        ensures
            s@ == self@,
    {
        self.0.as_str()
    }

    /// The text of this item number, borrowed.
    pub fn as_string(&self) -> (s: &String)
        ensures
            s@ == self@,
    {
        &self.0
    }

    /// The text of this item number.
    pub fn to_string(&self) -> (s: String)
        ensures
            s@ == self@,
    {
        self.0.clone()
    }

    /// The slug of this item number; the item number must not be empty.
    pub fn to_slug(&self) -> (s: Slug)
        requires
            self@.len() > 0,
        ensures
            s@ == slugify_text(self@),
    {
        Slug::new(self.value())
    }
}

/// Whether an item number has from 1 to 25 characters.
pub open spec fn valid_item_number_length(n: Seq<char>) -> bool {
    1 <= n.len() <= 25
}

/// Checks that an item number has from 1 to 25 characters: else the `length` error with the
/// bounds and the item number.
pub fn validate_item_number(input: &ItemNumber) -> (r: Result<(), ValidationError>)
    ensures
        r is Ok <==> valid_item_number_length(input@),
        r matches Err(e) ==> is_length_error(e, input@, Some(1), Some(25)),
{
    match check_length(&input.0, Some(1), Some(25)) {
        None => Ok(()),
        Some(e) => Err(e),
    }
}

/// An item number made of no characters, which `ItemNumber::new` never gives.
pub fn invalid_item_number() -> (n: ItemNumber)
    ensures
        n@.len() == 0,
{
    ItemNumber(String::new())
}

impl std::str::FromStr for ItemNumber {
    type Err = ItemNumberError;

    fn from_str(s: &str) -> (r: Result<Self, Self::Err>)
        ensures
            s@.len() == 0 ==> r == Err::<ItemNumber, ItemNumberError>(ItemNumberError::EmptyItemNumber),
            s@.len() > 0 ==> (r matches Ok(n) && n@ == s@),
    {
        ItemNumber::parse(s)
    }
}

impl std::ops::Deref for ItemNumber {
    type Target = str;

    fn deref(&self) -> (r: &str)
        ensures
            r@ == self@,
    {
        self.0.as_str()
    }
}

impl AsRef<str> for ItemNumber {
    fn as_ref(&self) -> (r: &str)
        ensures
            r@ == self@,
    {
        self.0.as_str()
    }
}

} // verus!
