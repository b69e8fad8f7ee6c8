//! The diagnostic for a bank identifier scheme that `build` sets right. It
//! is no rejection: the account is built, and the diagnostic tells what was
//! replaced.

use crate::account::KnownBankIdCode;
use crate::country::alpha3_text;
use crate::country::Country;
use crate::text::debug_rendering;
use crate::text::debug_text;
use vstd::prelude::*;
use vstd::string::StringExecFns;

verus! {

/// What `build` replaces when it sets the scheme of a bank identifier: the
/// country whose rule asks for the scheme, the scheme that the rule expects,
/// and what the builder held in its place, if anything.
#[derive(Debug, PartialEq, Eq)]
pub struct Correction {
    pub country: Country,
    pub expected: KnownBankIdCode,
    pub rejected: Option<String>,
}

/// The text of a diagnostic, by the country's three-letter code and by the
/// replaced scheme as it is shown.
pub open spec fn correction_text(alpha3: Seq<char>, shown: Seq<char>) -> Seq<char> {
    alpha3 + " requires BankIdCode, got invalid '"@ + shown + "'"@
}

/// Writes the text of a diagnostic.
pub fn correction_message(alpha3: &str, shown: &str) -> (message: String)
    ensures
        message@ == correction_text(alpha3@, shown@),
{
    let mut message = alpha3.to_owned();
    message.append(" requires BankIdCode, got invalid '");
    message.append(shown);
    message.append("'");
    message
}

impl Correction {
    /// The text of the diagnostic: it names the country by its three-letter
    /// code and shows the replaced scheme in the form that `Debug` gives to
    /// an optional text.
    pub fn message(&self) -> (message: String)
        ensures
            message@ == correction_text(
                alpha3_text(self.country@),
                debug_text(self.rejected.deep_view()),
            ),
    {
        correction_message(
            self.country.alpha3().as_str(),
            debug_rendering(&self.rejected).as_str(),
        )
    }
}

} // verus!
