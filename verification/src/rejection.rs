//! The messages with which an account is rejected. Each names the country at
//! fault and, where there is one, the length that was expected.

use crate::text::decimal;
use crate::text::decimal_text;
use vstd::prelude::*;
use vstd::string::StringExecFns;

verus! {

/// The message for a builder without a country.
pub open spec fn country_required_text() -> Seq<char> {
    "Country is required"@
}

/// The message for a country without a rule, by the country's name.
pub open spec fn unsupported_country_text(name: Seq<char>) -> Seq<char> {
    "Unsupported country "@ + name
}

/// The message for a missing BIC, by the country's three-letter code.
pub open spec fn bic_required_text(alpha3: Seq<char>) -> Seq<char> {
    alpha3 + " requires Bic"@
}

/// The message for an account number of the wrong length.
pub open spec fn number_length_text(alpha3: Seq<char>, expected: nat) -> Seq<char> {
    alpha3 + " requires "@ + decimal_text(expected) + "-character long Account Number"@
}

/// How a bank identifier is shown in a message: between single quotes where
/// there is one, by the word `absent` where there is none.
pub open spec fn shown_text(shown: Option<Seq<char>>) -> Seq<char> {
    match shown {
        Some(text) => "'"@ + text + "'"@,
        None => "absent"@,
    }
}

/// The message for a bank identifier that is missing or of the wrong length.
pub open spec fn bank_id_length_text(
    alpha3: Seq<char>,
    expected: nat,
    shown: Option<Seq<char>>,
) -> Seq<char> {
    alpha3 + " requires "@ + decimal_text(expected) + "-character BankId, got "@ + shown_text(shown)
}

/// Writes the message for a country without a rule.
pub fn unsupported_country(name: &str) -> (message: String)
    ensures
        message@ == unsupported_country_text(name@),
{
    let mut message = "Unsupported country ".to_owned();
    message.append(name);
    message
}

/// Writes the message for a missing BIC.
pub fn bic_required(alpha3: &str) -> (message: String)
    ensures
        message@ == bic_required_text(alpha3@),
{
    let mut message = alpha3.to_owned();
    message.append(" requires Bic");
    message
}

/// Writes the message for an account number of the wrong length.
pub fn number_length(alpha3: &str, expected: u8) -> (message: String)
    ensures
        message@ == number_length_text(alpha3@, expected as nat),
{
    let mut message = alpha3.to_owned();
    message.append(" requires ");
    message.append(decimal(expected).as_str());
    message.append("-character long Account Number");
    message
}

/// Writes the message for a bank identifier that is missing or of the wrong
/// length. `shown` is the identifier as the message is to show it.
pub fn bank_id_length(alpha3: &str, expected: u8, shown: Option<&str>) -> (message: String)
    ensures
        message@ == bank_id_length_text(alpha3@, expected as nat, shown.deep_view()),
{
    let mut message = alpha3.to_owned();
    message.append(" requires ");
    message.append(decimal(expected).as_str());
    message.append("-character BankId, got ");
    let ghost head = message@;
    match shown {
        Some(text) => {
            message.append("'");
            message.append(text);
            message.append("'");
            assert(message@ =~= head + ("'"@ + text@ + "'"@));
        },
        None => {
            message.append("absent");
        },
    }
    message
}

} // verus!
