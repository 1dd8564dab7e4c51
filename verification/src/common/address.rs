//! Physical street addresses.

use crate::common::contacts::opt_text;
use crate::common::validation::{
    add_error, check_length, error_entries, length_between, length_checked, new_errors, no_errors,
};
use validator::ValidationErrors;
use isocountry::CountryCode;
use vstd::prelude::*;

verus! {

/// The ISO 3166-1 country codes of the `isocountry` crate.
#[verifier::external_type_specification]
#[verifier::external_body]
pub struct ExCountryCode(isocountry::CountryCode);

/// `Clone` of `isocountry::CountryCode`, derived on a `Copy` enum: the clone is the value.
pub assume_specification[ <isocountry::CountryCode as Clone>::clone ](c: &isocountry::CountryCode) -> (r: isocountry::CountryCode)
    ensures
        r == *c,
;

/// The ISO 3166-1 alpha-2 code of a country.
pub uninterp spec fn country_alpha2(c: CountryCode) -> Seq<char>;

/// Calls `isocountry::CountryCode::alpha2`. Its result is named `country_alpha2`; stated of
/// it: it is two upper case ASCII letters, as every code of the crate's table is.
#[verifier::external_body]
pub(crate) fn alpha2_code(country: CountryCode) -> (r: String)
    ensures
        r@ == country_alpha2(country),
        r@.len() == 2,
        forall|i: int| 0 <= i < 2 ==> 'A' <= #[trigger] r@[i] <= 'Z',
{
    country.alpha2().to_string()
}

/// It represents a physical street address
#[derive(Debug, Clone, PartialEq, Eq)]
pub struct Address {
    /// the street address
    pub street_address: String,
    /// the (optional) extended information for the address
    pub extended_address: Option<String>,
    /// the city/town
    pub city: String,
    /// the region code; for example, the state or province.
    pub region: Option<String>,
    /// the postal code (ZIP code)
    pub postal_code: String,
    /// the ISO country code (ISO 3166-1 alpha-3)
    pub country: CountryCode,
}

/// The text of an optional string slice.
pub open spec fn opt_str_text(s: Option<&str>) -> Option<Seq<char>> {
    match s {
        Some(s) => Some(s@),
        None => None,
    }
}

impl Address {
    /// the street address
    pub fn street_address(&self) -> (r: &str)
        ensures
            r@ == self.street_address@,
    {
        self.street_address.as_str()
    }

    /// the (optional) extended information for the address
    pub fn extended_address(&self) -> (r: Option<&str>)
        ensures
            opt_str_text(r) == opt_text(self.extended_address),
    {
        match &self.extended_address {
            Some(s) => Some(s.as_str()),
            None => None,
        }
    }

    /// the city/town
    pub fn city(&self) -> (r: &str)
        ensures
            r@ == self.city@,
    {
        self.city.as_str()
    }

    /// the region code; for example, the state or province.
    pub fn region(&self) -> (r: Option<&str>)
        ensures
            opt_str_text(r) == opt_text(self.region),
    {
        match &self.region {
            Some(s) => Some(s.as_str()),
            None => None,
        }
    }

    /// the postal code (ZIP code)
    pub fn postal_code(&self) -> (r: &str)
        ensures
            r@ == self.postal_code@,
    {
        self.postal_code.as_str()
    }

    /// the ISO country code (ISO 3166-1 alpha-3)
    pub fn country_code(&self) -> (r: CountryCode)
        ensures
            r == self.country,
    {
        self.country
    }

    /// Creates a new address builder
    pub fn builder() -> (b: AddressBuilder)
        ensures
            b@ == (None::<Seq<char>>, None::<Seq<char>>, None::<Seq<char>>, None::<Seq<char>>, None::<
                Seq<char>,
            >, None::<CountryCode>),
    {
        AddressBuilder::default()
    }
}

/// The address meets the length rules: street address from 5 to 255 characters, extended
/// address at most 255, city from 3 to 50, region at most 50, postal code from 3 to 10.
pub open spec fn valid_address(a: Address) -> bool {
    &&& length_between(a.street_address@, Some(5), Some(255))
    &&& (a.extended_address matches Some(e) ==> length_between(e@, None, Some(255)))
    &&& length_between(a.city@, Some(3), Some(50))
    &&& (a.region matches Some(r) ==> length_between(r@, None, Some(50)))
    &&& length_between(a.postal_code@, Some(3), Some(10))
}

impl Address {
    /// Checks the length rules: `Ok` where all hold, else a `length` error for each field
    /// that breaks its rule, and for no other field.
    pub fn validate(&self) -> (r: Result<(), ValidationErrors>)
        ensures
            r is Ok <==> valid_address(*self),
            r matches Err(es) ==> {
                let entries = error_entries(es);
                &&& length_checked(entries, "street_address"@, Some(self.street_address@), Some(5), Some(255))
                &&& length_checked(entries, "extended_address"@, opt_text(self.extended_address), None, Some(255))
                &&& length_checked(entries, "city"@, Some(self.city@), Some(3), Some(50))
                &&& length_checked(entries, "region"@, opt_text(self.region), None, Some(50))
                &&& length_checked(entries, "postal_code"@, Some(self.postal_code@), Some(3), Some(10))
                &&& forall|f: Seq<char>| #[trigger] entries.contains_key(f) ==> f == "street_address"@ || f
                    == "extended_address"@ || f == "city"@ || f == "region"@ || f == "postal_code"@
            },
    {
        proof {
            reveal_strlit("street_address");
            reveal_strlit("extended_address");
            reveal_strlit("city");
            reveal_strlit("region");
            reveal_strlit("postal_code");
        }
        let ghost f1 = "street_address"@;
        let ghost f2 = "extended_address"@;
        let ghost f3 = "city"@;
        let ghost f4 = "region"@;
        let ghost f5 = "postal_code"@;
        assert(f1.len() == 14 && f2.len() == 16 && f3.len() == 4 && f4.len() == 6 && f5.len() == 11);
        let mut errors = new_errors();
        if let Some(e) = check_length(&self.street_address, Some(5), Some(255)) {
            add_error(&mut errors, "street_address", e);
            assert(error_entries(errors)[f1] == Some(seq![e]));
        }
        let ghost e1 = error_entries(errors);
        assert(length_checked(e1, f1, Some(self.street_address@), Some(5), Some(255)));
        assert(forall|f: Seq<char>| #[trigger] e1.contains_key(f) ==> f == f1);
        if let Some(extended) = &self.extended_address {
            if let Some(e) = check_length(extended, None, Some(255)) {
                add_error(&mut errors, "extended_address", e);
                assert(error_entries(errors)[f2] == Some(seq![e]));
            }
        }
        let ghost e2 = error_entries(errors);
        assert(length_checked(e2, f1, Some(self.street_address@), Some(5), Some(255)));
        assert(length_checked(e2, f2, opt_text(self.extended_address), None, Some(255)));
        assert(forall|f: Seq<char>| #[trigger] e2.contains_key(f) ==> f == f1 || f == f2);
        if let Some(e) = check_length(&self.city, Some(3), Some(50)) {
            add_error(&mut errors, "city", e);
            assert(error_entries(errors)[f3] == Some(seq![e]));
        }
        let ghost e3 = error_entries(errors);
        assert(length_checked(e3, f1, Some(self.street_address@), Some(5), Some(255)));
        assert(length_checked(e3, f2, opt_text(self.extended_address), None, Some(255)));
        assert(length_checked(e3, f3, Some(self.city@), Some(3), Some(50)));
        assert(forall|f: Seq<char>| #[trigger] e3.contains_key(f) ==> f == f1 || f == f2 || f == f3);
        if let Some(region) = &self.region {
            if let Some(e) = check_length(region, None, Some(50)) {
                add_error(&mut errors, "region", e);
                assert(error_entries(errors)[f4] == Some(seq![e]));
            }
        }
        let ghost e4 = error_entries(errors);
        assert(length_checked(e4, f1, Some(self.street_address@), Some(5), Some(255)));
        assert(length_checked(e4, f2, opt_text(self.extended_address), None, Some(255)));
        assert(length_checked(e4, f3, Some(self.city@), Some(3), Some(50)));
        assert(length_checked(e4, f4, opt_text(self.region), None, Some(50)));
        assert(forall|f: Seq<char>| #[trigger] e4.contains_key(f) ==> f == f1 || f == f2 || f == f3 || f == f4);
        if let Some(e) = check_length(&self.postal_code, Some(3), Some(10)) {
            add_error(&mut errors, "postal_code", e);
            assert(error_entries(errors)[f5] == Some(seq![e]));
        }
        let ghost e5 = error_entries(errors);
        assert(length_checked(e5, f1, Some(self.street_address@), Some(5), Some(255)));
        assert(length_checked(e5, f2, opt_text(self.extended_address), None, Some(255)));
        assert(length_checked(e5, f3, Some(self.city@), Some(3), Some(50)));
        assert(length_checked(e5, f4, opt_text(self.region), None, Some(50)));
        assert(length_checked(e5, f5, Some(self.postal_code@), Some(3), Some(10)));
        if no_errors(&errors) {
            Ok(())
        } else {
            Err(errors)
        }
    }
}

/// A physical street address builder
pub struct AddressBuilder {
    street_address: Option<String>,
    extended_address: Option<String>,
    city: Option<String>,
    region: Option<String>,
    postal_code: Option<String>,
    country_code: Option<CountryCode>,
}

impl View for AddressBuilder {
    type V = (
        Option<Seq<char>>,
        Option<Seq<char>>,
        Option<Seq<char>>,
        Option<Seq<char>>,
        Option<Seq<char>>,
        Option<CountryCode>,
    );

    /// The values set so far: street address, extended address, city, region, postal code
    /// and country.
    closed spec fn view(&self) -> Self::V {
        (
            opt_text(self.street_address),
            opt_text(self.extended_address),
            opt_text(self.city),
            opt_text(self.region),
            opt_text(self.postal_code),
            self.country_code,
        )
    }
}

impl Default for AddressBuilder {
    fn default() -> (b: Self)
        ensures
            b@ == (None::<Seq<char>>, None::<Seq<char>>, None::<Seq<char>>, None::<Seq<char>>, None::<
                Seq<char>,
            >, None::<CountryCode>),
    {
        AddressBuilder {
            street_address: None,
            extended_address: None,
            city: None,
            region: None,
            postal_code: None,
            country_code: None,
        }
    }
}

/// The errors of building an address: a required value is missing.
#[derive(Debug, PartialEq, Eq, Copy, Clone, Structural)]
pub enum AddressBuilderError {
    /// street address is required
    MissingStreetAddress,
    /// city is required
    MissingCity,
    /// postal code is required
    MissingPostalCode,
    /// country is required
    MissingCountry,
}

/// The first required value that is missing, in the order street address, city, postal
/// code, country; `None` where all are set.
pub open spec fn missing_address_value(
    parts: (
        Option<Seq<char>>,
        Option<Seq<char>>,
        Option<Seq<char>>,
        Option<Seq<char>>,
        Option<Seq<char>>,
        Option<CountryCode>,
    ),
) -> Option<AddressBuilderError> {
    if parts.0 is None {
        Some(AddressBuilderError::MissingStreetAddress)
    } else if parts.2 is None {
        Some(AddressBuilderError::MissingCity)
    } else if parts.4 is None {
        Some(AddressBuilderError::MissingPostalCode)
    } else if parts.5 is None {
        Some(AddressBuilderError::MissingCountry)
    } else {
        None
    }
}

impl AddressBuilder {
    /// the street address
    pub fn street_address(self, street_address: &str) -> (b: AddressBuilder)
        ensures
            b@ == (Some(street_address@), self@.1, self@.2, self@.3, self@.4, self@.5),
    {
        AddressBuilder { street_address: Some(street_address.to_owned()), ..self }
    }

    /// the (optional) extended information for the address
    pub fn extended_address(self, extended_address: &str) -> (b: AddressBuilder)
        ensures
            b@ == (self@.0, Some(extended_address@), self@.2, self@.3, self@.4, self@.5),
    {
        AddressBuilder { extended_address: Some(extended_address.to_owned()), ..self }
    }

    /// the city/town
    pub fn city(self, city: &str) -> (b: AddressBuilder)
        ensures
            b@ == (self@.0, self@.1, Some(city@), self@.3, self@.4, self@.5),
    {
        AddressBuilder { city: Some(city.to_owned()), ..self }
    }

    /// the region code
    pub fn region(self, region: &str) -> (b: AddressBuilder)
        ensures
            b@ == (self@.0, self@.1, self@.2, Some(region@), self@.4, self@.5),
    {
        AddressBuilder { region: Some(region.to_owned()), ..self }
    }

    /// the postal code (ZIP code)
    pub fn postal_code(self, postal_code: &str) -> (b: AddressBuilder)
        ensures
            b@ == (self@.0, self@.1, self@.2, self@.3, Some(postal_code@), self@.5),
    {
        AddressBuilder { postal_code: Some(postal_code.to_owned()), ..self }
    }

    /// the ISO country code (ISO 3166-1 alpha-3)
    pub fn country(self, country_code: CountryCode) -> (b: AddressBuilder)
        ensures
            b@ == (self@.0, self@.1, self@.2, self@.3, self@.4, Some(country_code)),
    {
        AddressBuilder { country_code: Some(country_code), ..self }
    }

    /// Builds the address: the first missing required value (street address, city, postal
    /// code, country) is the error; else the address of the values set.
    pub fn build(self) -> (r: Result<Address, AddressBuilderError>)
        ensures
            match missing_address_value(self@) {
                Some(e) => r == Err::<Address, AddressBuilderError>(e),
                None => r matches Ok(a) && Some(a.street_address@) == self@.0 && opt_text(a.extended_address)
                    == self@.1 && Some(a.city@) == self@.2 && opt_text(a.region) == self@.3 && Some(
                    a.postal_code@,
                ) == self@.4 && Some(a.country) == self@.5,
            },
    {
        let street_address = match self.street_address {
            Some(s) => s,
            None => {
                return Err(AddressBuilderError::MissingStreetAddress);
            },
        };
        let extended_address = self.extended_address;
        let city = match self.city {
            Some(s) => s,
            None => {
                return Err(AddressBuilderError::MissingCity);
            },
        };
        let region = self.region;
        let postal_code = match self.postal_code {
            Some(s) => s,
            None => {
                return Err(AddressBuilderError::MissingPostalCode);
            },
        };
        let country = match self.country_code {
            Some(c) => c,
            None => {
                return Err(AddressBuilderError::MissingCountry);
            },
        };
        Ok(Address { street_address, extended_address, city, region, postal_code, country })
    }
}

} // verus!
