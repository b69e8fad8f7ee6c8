//! Countries, held by their ISO 3166-1 numeric code. The code's assignment
//! and its names are looked up in the `isocountry` tables.

use isocountry::CountryCode;
use vstd::prelude::*;

verus! {

/// Whether `CountryCode::for_id` knows a number as an ISO 3166-1 numeric code.
pub uninterp spec fn is_country_code(numeric: u32) -> bool;

/// The three-letter code that `CountryCode::alpha3` gives for the country of
/// a numeric code.
pub uninterp spec fn alpha3_text(numeric: u32) -> Seq<char>;

/// The English short name that `CountryCode` displays for the country of a
/// numeric code.
pub uninterp spec fn short_name_text(numeric: u32) -> Seq<char>;

/// Asks `CountryCode::for_id` whether a number is the numeric code of a
/// country. The answer depends on the number alone.
#[verifier::external_body]
fn known_code(numeric: u32) -> (known: bool)
    ensures
        known == is_country_code(numeric),
{
    CountryCode::for_id(numeric).is_ok()
}

/// Looks a numeric code up with `CountryCode::for_id` and returns what
/// `CountryCode::alpha3` gives for the country found. There is a result
/// exactly for the numbers that `for_id` knows, and it depends on the number
/// alone.
#[verifier::external_body]
fn alpha3_of(numeric: u32) -> (found: Option<String>)
    ensures
        found is Some <==> is_country_code(numeric),
        found matches Some(text) ==> text@ == alpha3_text(numeric),
{
    match CountryCode::for_id(numeric) {
        Ok(code) => Some(code.alpha3().to_string()),
        Err(_) => None,
    }
}

/// Looks a numeric code up with `CountryCode::for_id` and returns what the
/// `Display` of the country found writes, its English short name. There is a
/// result exactly for the numbers that `for_id` knows, and it depends on the
/// number alone.
#[verifier::external_body]
fn short_name_of(numeric: u32) -> (found: Option<String>)
    ensures
        found is Some <==> is_country_code(numeric),
        found matches Some(text) ==> text@ == short_name_text(numeric),
{
    match CountryCode::for_id(numeric) {
        Ok(code) => Some(code.to_string()),
        Err(_) => None,
    }
}

/// A country of ISO 3166-1. Its view is its numeric code.
#[derive(Clone, Copy, Debug, PartialEq, Eq)]
pub struct Country {
    numeric: u32,
}

impl View for Country {
    type V = u32;

    closed spec fn view(&self) -> u32 {
        self.numeric
    }
}

impl Country {
    /// Every country holds a numeric code that is assigned.
    #[verifier::type_invariant]
    spec fn assigned(self) -> bool {
        is_country_code(self.numeric)
    }

    /// The country of a numeric code, where the code is assigned.
    pub fn from_numeric(numeric: u32) -> (country: Option<Country>)
        ensures
            country is Some <==> is_country_code(numeric),
            country matches Some(c) ==> c@ == numeric,
    {
        if known_code(numeric) {
            Some(Country { numeric })
        } else {
            None
        }
    }

    /// The numeric code.
    pub fn numeric(&self) -> (numeric: u32)
        ensures
            numeric == self@,
            is_country_code(numeric),
    {
        proof {
            use_type_invariant(self);
        }
        self.numeric
    }

    /// The three-letter code.
    pub fn alpha3(&self) -> (text: String)
        ensures
            text@ == alpha3_text(self@),
    {
        proof {
            use_type_invariant(self);
        }
        alpha3_of(self.numeric).unwrap()
    }

    /// The English short name.
    pub fn name(&self) -> (text: String)
        ensures
            text@ == short_name_text(self@),
    {
        proof {
            use_type_invariant(self);
        }
        short_name_of(self.numeric).unwrap()
    }
}

} // verus!
