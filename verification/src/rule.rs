//! The rule table: what each supported country asks of the accounts held in
//! it.

use crate::account::KnownBankIdCode;
use crate::country::Country;
use vstd::prelude::*;

verus! {

/// The ISO 3166-1 numeric code of the United Kingdom.
pub const UNITED_KINGDOM: u32 = 826;

/// The ISO 4217 numeric code of the pound sterling.
pub const POUND_STERLING: u16 = 826;

/// A currency, held by its ISO 4217 numeric code.
#[derive(Clone, Copy, Debug, PartialEq, Eq, Structural)]
pub struct Currency {
    pub numeric: u16,
}

/// What one country asks of an account: its currency, the lengths of the
/// account number and of the bank identifier, and the scheme of the bank
/// identifier.
#[derive(Clone, Copy, Debug, PartialEq, Eq)]
pub struct Rule {
    pub country: Country,
    pub currency: Currency,
    pub account_number_length: u8,
    pub bank_id_length: u8,
    pub bank_id_code: KnownBankIdCode,
}

/// The rule of a country, for the countries that have one.
pub open spec fn rule_of(country: Country) -> Option<Rule> {
    if country@ == UNITED_KINGDOM {
        Some(
            Rule {
                country,
                currency: Currency { numeric: POUND_STERLING },
                account_number_length: 8,
                bank_id_length: 6,
                bank_id_code: KnownBankIdCode::GbBankIdCode,
            },
        )
    } else {
        None
    }
}

/// Looks up the rule of a country. A country has at most one rule, and the
/// rule names the country it is for.
pub fn rule_for(country: Country) -> (rule: Option<Rule>)
    ensures
        rule == rule_of(country),
        rule matches Some(r) ==> r.country == country,
{
    if country.numeric() == UNITED_KINGDOM {
        Some(
            Rule {
                country,
                currency: Currency { numeric: POUND_STERLING },
                account_number_length: 8,
                bank_id_length: 6,
                bank_id_code: KnownBankIdCode::GbBankIdCode,
            },
        )
    } else {
        None
    }
}

} // verus!
