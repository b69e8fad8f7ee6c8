//! The account builder: a staging value that gathers the fields of an
//! account and, on `build`, holds them to the rule of the account's country.

use crate::account::Classification;
use crate::account::KnownBankIdCode;
use crate::correction::Correction;
use crate::country::alpha3_text;
use crate::country::short_name_text;
use crate::country::Country;
use crate::identity::is_nil_id;
use crate::rejection::bank_id_length;
use crate::rejection::bank_id_length_text;
use crate::rejection::bic_required;
use crate::rejection::bic_required_text;
use crate::rejection::country_required_text;
use crate::rejection::number_length;
use crate::rejection::number_length_text;
use crate::rejection::unsupported_country;
use crate::rejection::unsupported_country_text;
use crate::rule::rule_for;
use crate::rule::rule_of;
use crate::rule::Currency;
use crate::rule::Rule;
use crate::rule::UNITED_KINGDOM;
use crate::text::byte_count;
use crate::text::byte_length;
use crate::text::debug_rendering;
use crate::text::debug_text;
use crate::text::same_text;
use crate::Account;
use crate::AccountView;
use uuid::Uuid;
use vstd::prelude::*;

verus! {

/// The fields of an account while they are gathered. Every field but the
/// classification may still be missing.
#[derive(Debug)]
pub struct Builder {
    id: Option<Uuid>,
    organisation_id: Option<Uuid>,
    country: Option<Country>,
    currency: Option<Currency>,
    bank_id_code: Option<String>,
    bank_id: Option<String>,
    bic: Option<String>,
    number: Option<String>,
    iban: Option<String>,
    title: Option<String>,
    classification: Classification,
}

/// What a builder holds, with each text as its characters.
pub struct BuilderView {
    pub id: Option<Uuid>,
    pub organisation_id: Option<Uuid>,
    pub country: Option<Country>,
    pub currency: Option<Currency>,
    pub bank_id_code: Option<Seq<char>>,
    pub bank_id: Option<Seq<char>>,
    pub bic: Option<Seq<char>>,
    pub number: Option<Seq<char>>,
    pub iban: Option<Seq<char>>,
    pub title: Option<Seq<char>>,
    pub classification: Classification,
}

impl BuilderView {
    /// The builder in which nothing is set and the classification is
    /// personal.
    pub open spec fn empty() -> BuilderView {
        BuilderView {
            id: None,
            organisation_id: None,
            country: None,
            currency: None,
            bank_id_code: None,
            bank_id: None,
            bic: None,
            number: None,
            iban: None,
            title: None,
            classification: Classification::PERSONAL,
        }
    }

    /// The rule that the builder falls under: that of its country, where it
    /// has a country and the country has a rule.
    pub open spec fn rule(self) -> Option<Rule> {
        match self.country {
            Some(country) => rule_of(country),
            None => None,
        }
    }

    /// An account number is optional; where there is one, it has the length
    /// asked for, in bytes.
    pub open spec fn number_fits(self, length: u8) -> bool {
        self.number matches Some(number) ==> byte_length(number) == length
    }

    /// A bank identifier is mandatory, and has the length asked for, in
    /// bytes.
    pub open spec fn bank_id_fits(self, length: u8) -> bool {
        self.bank_id matches Some(bank_id) && byte_length(bank_id) == length
    }

    /// The bank identifier as a message shows it: where there is one, in the
    /// form that `Debug` gives to an optional text.
    pub open spec fn shown_bank_id(self) -> Option<Seq<char>> {
        match self.bank_id {
            Some(_) => Some(debug_text(self.bank_id)),
            None => None,
        }
    }

    /// The message of the first restriction that the builder breaks, if it
    /// breaks any: first the length of the account number, then the presence
    /// and length of the bank identifier.
    pub open spec fn broken_restriction(
        self,
        alpha3: Seq<char>,
        number_length: u8,
        bank_id_length: u8,
    ) -> Option<Seq<char>> {
        if !self.number_fits(number_length) {
            Some(number_length_text(alpha3, number_length as nat))
        } else if !self.bank_id_fits(bank_id_length) {
            Some(bank_id_length_text(alpha3, bank_id_length as nat, self.shown_bank_id()))
        } else {
            None
        }
    }

    /// A builder is acceptable when it falls under a rule, holds a BIC, and
    /// its account number and bank identifier fit the rule.
    pub open spec fn acceptable(self) -> bool {
        &&& self.rule() matches Some(rule)
        &&& self.bic is Some
        &&& self.number_fits(rule.account_number_length)
        &&& self.bank_id_fits(rule.bank_id_length)
    }

    /// Whether `build` sets the scheme of the bank identifier right: the
    /// builder is acceptable, and the scheme it holds is not the rule's.
    pub open spec fn corrected(self) -> bool {
        &&& self.acceptable()
        &&& self.rule() matches Some(rule)
        &&& self.bank_id_code != Some(rule.bank_id_code.text())
    }

    /// The message with which the builder is rejected, if it is: for a
    /// missing country, then for a country without a rule, then for a missing
    /// BIC, then for the first restriction of the rule that is broken.
    pub open spec fn rejection(self) -> Option<Seq<char>> {
        match self.country {
            None => Some(country_required_text()),
            Some(country) => match rule_of(country) {
                None => Some(unsupported_country_text(short_name_text(country@))),
                Some(rule) => if self.bic is None {
                    Some(bic_required_text(alpha3_text(country@)))
                } else {
                    self.broken_restriction(
                        alpha3_text(country@),
                        rule.account_number_length,
                        rule.bank_id_length,
                    )
                },
            },
        }
    }

    /// The builder with the scheme of its bank identifier set to the given
    /// one, whatever it held before.
    pub open spec fn normalized(self, code: KnownBankIdCode) -> BuilderView {
        BuilderView { bank_id_code: Some(code.text()), ..self }
    }

    /// The account that a builder gives under a rule, with the two
    /// identifiers that it is to carry.
    pub open spec fn account(self, rule: Rule, id: Uuid, organisation_id: Uuid) -> AccountView {
        AccountView {
            id,
            organisation_id,
            country: rule.country,
            currency: rule.currency,
            bank_id_code: rule.bank_id_code.text(),
            bank_id: self.bank_id->0,
            bic: self.bic->0,
            number: self.number,
            iban: self.iban,
            title: self.title,
            classification: self.classification,
        }
    }

    /// Whether an account is the one that the builder gives: the builder
    /// falls under a rule, the account is made of the rule and of the
    /// builder's fields, it carries each identifier that the builder holds,
    /// and an identifier drawn for one that the builder lacks is not nil.
    pub open spec fn gives(self, account: AccountView) -> bool {
        &&& self.rule() matches Some(rule)
        &&& account == self.account(rule, account.id, account.organisation_id)
        &&& keeps(self.id, account.id)
        &&& keeps(self.organisation_id, account.organisation_id)
        &&& drawn(self.id, account.id)
        &&& drawn(self.organisation_id, account.organisation_id)
    }

    /// A builder that was accepted is accepted again as `build` left it, and
    /// gives the same account when it is given the same identifiers: setting
    /// the scheme of the bank identifier a second time changes nothing, and
    /// there is nothing left to set right.
    pub proof fn lemma_build_can_be_repeated(self, rule: Rule, id: Uuid, organisation_id: Uuid)
        requires
            self.rejection() is None,
            self.rule() == Some(rule),
        ensures
            self.normalized(rule.bank_id_code).rejection() is None,
            self.normalized(rule.bank_id_code).rule() == Some(rule),
            self.normalized(rule.bank_id_code).account(rule, id, organisation_id) == self.account(
                rule,
                id,
                organisation_id,
            ),
            self.normalized(rule.bank_id_code).normalized(rule.bank_id_code) == self.normalized(
                rule.bank_id_code,
            ),
            !self.normalized(rule.bank_id_code).corrected(),
    {
    }
}

/// A result is the rejection with a given message.
pub open spec fn rejected_with(result: Result<Account, String>, message: Seq<char>) -> bool {
    result matches Err(given) && given@ == message
}

/// An identifier that was set is kept as it is.
pub open spec fn keeps(given: Option<Uuid>, id: Uuid) -> bool {
    given matches Some(set) ==> id == set
}

/// An identifier that stands for one that was not set is not the nil
/// identifier.
pub open spec fn drawn(given: Option<Uuid>, id: Uuid) -> bool {
    given is None ==> !is_nil_id(id)
}

impl View for Builder {
    type V = BuilderView;

    closed spec fn view(&self) -> BuilderView {
        BuilderView {
            id: self.id,
            organisation_id: self.organisation_id,
            country: self.country,
            currency: self.currency,
            bank_id_code: self.bank_id_code.deep_view(),
            bank_id: self.bank_id.deep_view(),
            bic: self.bic.deep_view(),
            number: self.number.deep_view(),
            iban: self.iban.deep_view(),
            title: self.title.deep_view(),
            classification: self.classification,
        }
    }
}

impl Builder {
    /// A builder in which nothing is set yet.
    pub fn new_account() -> (builder: Builder)
        ensures
            builder@ == BuilderView::empty(),
    {
        Builder {
            id: None,
            organisation_id: None,
            country: None,
            currency: None,
            bank_id_code: None,
            bank_id: None,
            bic: None,
            number: None,
            iban: None,
            title: None,
            classification: Classification::PERSONAL,
        }
    }

    /// Sets the identifier of the account.
    pub fn with_account_id(&mut self, id: Uuid) -> (builder: &mut Builder)
        ensures
            builder@ == (BuilderView { id: Some(id), ..old(self)@ }),
            *final(self) == *final(builder),
    {
        self.id = Some(id);
        self
    }

    /// Sets the identifier of the organisation that holds the account.
    pub fn with_organisation_id(&mut self, id: Uuid) -> (builder: &mut Builder)
        ensures
            builder@ == (BuilderView { organisation_id: Some(id), ..old(self)@ }),
            *final(self) == *final(builder),
    {
        self.organisation_id = Some(id);
        self
    }

    /// Sets the country, which decides the rule that `build` applies.
    pub fn with_country(&mut self, country: Country) -> (builder: &mut Builder)
        ensures
            builder@ == (BuilderView { country: Some(country), ..old(self)@ }),
            *final(self) == *final(builder),
    {
        self.country = Some(country);
        self
    }

    /// Sets the bank identifier, as it is given.
    pub fn with_bank_id(&mut self, id: &str) -> (builder: &mut Builder)
        ensures
            builder@ == (BuilderView { bank_id: Some(id@), ..old(self)@ }),
            *final(self) == *final(builder),
    {
        self.bank_id = Some(id.to_owned());
        self
    }

    /// Sets the scheme of the bank identifier, as it is given.
    pub fn with_bank_id_code(&mut self, code: &str) -> (builder: &mut Builder)
        ensures
            builder@ == (BuilderView { bank_id_code: Some(code@), ..old(self)@ }),
            *final(self) == *final(builder),
    {
        self.bank_id_code = Some(code.to_owned());
        self
    }

    /// Sets the account number, as it is given.
    pub fn with_number(&mut self, number: &str) -> (builder: &mut Builder)
        ensures
            builder@ == (BuilderView { number: Some(number@), ..old(self)@ }),
            *final(self) == *final(builder),
    {
        self.number = Some(number.to_owned());
        self
    }

    /// Sets the IBAN, as it is given. No rule looks at it.
    pub fn with_iban(&mut self, iban: &str) -> (builder: &mut Builder)
        ensures
            builder@ == (BuilderView { iban: Some(iban@), ..old(self)@ }),
            *final(self) == *final(builder),
    {
        self.iban = Some(iban.to_owned());
        self
    }

    /// Sets the BIC, as it is given.
    pub fn with_bic(&mut self, bic: &str) -> (builder: &mut Builder)
        ensures
            builder@ == (BuilderView { bic: Some(bic@), ..old(self)@ }),
            *final(self) == *final(builder),
    {
        self.bic = Some(bic.to_owned());
        self
    }

    /// Marks the account as held by an individual.
    pub fn mark_personal(&mut self) -> (builder: &mut Builder)
        ensures
            builder@ == (BuilderView { classification: Classification::PERSONAL, ..old(self)@ }),
            *final(self) == *final(builder),
    {
        self.classification = Classification::PERSONAL;
        self
    }

    /// Marks the account as held by an entity.
    pub fn mark_business(&mut self) -> (builder: &mut Builder)
        ensures
            builder@ == (BuilderView { classification: Classification::BUSINESS, ..old(self)@ }),
            *final(self) == *final(builder),
    {
        self.classification = Classification::BUSINESS;
        self
    }

    /// Holds the builder to the rule of its country and gives the account,
    /// or the message of the first check that fails. The checks come in this
    /// order: the country is set; the country has a rule; the BIC is set; the
    /// account number, where there is one, has the rule's length; the bank
    /// identifier is set and has the rule's length.
    ///
    /// A builder that is rejected stays as it was. In a builder that is
    /// accepted, the scheme of the bank identifier is set to the rule's.
    /// An identifier that was not set is drawn at random, and is never the
    /// nil identifier.
    pub fn build(&mut self) -> (result: Result<Account, String>)
        ensures
            // The outcome: the account where the builder is acceptable, the
            // rejection for the first check that fails otherwise.
            result is Ok <==> old(self)@.acceptable(),
            result matches Ok(account) ==> old(self)@.gives(account@) && account@.consistent(),
            old(self)@.rejection() matches Some(message) ==> rejected_with(result, message),
            // The builder: as it was after a rejection, with the scheme of
            // its rule after an account.
            result is Err ==> *final(self) == *old(self),
            result is Ok ==> (old(self)@.rule() matches Some(rule)
                && final(self)@ == old(self)@.normalized(rule.bank_id_code)),
            // The builder changes exactly where `correction` has a
            // diagnostic for it.
            final(self)@ != old(self)@ <==> old(self)@.corrected(),
            // Without a country the builder is rejected for that, whatever
            // else it holds.
            old(self)@.country is None ==> rejected_with(result, country_required_text()),
            // A country without a rule is rejected by its name.
            old(self)@.country matches Some(country) ==> (rule_of(country) is None
                ==> rejected_with(result, unsupported_country_text(short_name_text(country@)))),
            // Under a rule, a builder without a BIC is rejected for that.
            old(self)@.rule() matches Some(rule) ==> (old(self)@.bic is None
                ==> rejected_with(result, bic_required_text(alpha3_text(rule.country@)))),
            // With a BIC, an account number of the wrong length is rejected
            // with the length expected, whatever the bank identifier is.
            old(self)@.rule() matches Some(rule) ==> (old(self)@.bic is Some
                && !old(self)@.number_fits(rule.account_number_length)
                ==> rejected_with(
                result,
                number_length_text(alpha3_text(rule.country@), rule.account_number_length as nat),
            )),
            // With a BIC and no fault in the account number, a bank
            // identifier that is missing or of the wrong length is rejected
            // with the length expected and what was found.
            old(self)@.rule() matches Some(rule) ==> (old(self)@.bic is Some
                && old(self)@.number_fits(rule.account_number_length)
                && !old(self)@.bank_id_fits(rule.bank_id_length)
                ==> rejected_with(
                result,
                bank_id_length_text(
                    alpha3_text(rule.country@),
                    rule.bank_id_length as nat,
                    old(self)@.shown_bank_id(),
                ),
            )),
            // An identifier that was set is the account's; one that was not
            // set is drawn, and is not the nil identifier.
            result matches Ok(account) ==> keeps(old(self)@.id, account@.id) && keeps(
                old(self)@.organisation_id,
                account@.organisation_id,
            ),
            result matches Ok(account) ==> (old(self)@.id is None ==> !is_nil_id(account@.id))
                && (old(self)@.organisation_id is None ==> !is_nil_id(account@.organisation_id)),
            // With a BIC and no fault in the account number or the bank
            // identifier, the account is built, and the scheme of its bank
            // identifier is the rule's, whatever scheme the builder held.
            old(self)@.rule() matches Some(rule) ==> (old(self)@.acceptable()
                ==> (result matches Ok(account)
                && account@.bank_id_code == rule.bank_id_code.text())),
    {
        let country = match self.country {
            Some(country) => country,
            None => {
                return Err("Country is required".to_owned());
            },
        };
        match rule_for(country) {
            Some(rule) => self.create_account_with_gb_country_restrictions(rule),
            None => Err(unsupported_country(country.name().as_str())),
        }
    }

    /// Builds an account under the rule of the United Kingdom, which asks
    /// for a BIC besides the restrictions on lengths.
    fn create_account_with_gb_country_restrictions(&mut self, rule: Rule) -> (result: Result<
        Account,
        String,
    >)
        requires
            old(self)@.rule() == Some(rule),
            rule.country@ == UNITED_KINGDOM,
        ensures
            old(self)@.rejection() matches Some(message) ==> rejected_with(result, message),
            old(self)@.rejection() is None ==> result is Ok,
            result matches Ok(account) ==> old(self)@.gives(account@),
            result is Err ==> *final(self) == *old(self),
            result is Ok ==> final(self)@ == old(self)@.normalized(rule.bank_id_code),
    {
        if self.bic.is_none() {
            return Err(bic_required(rule.country.alpha3().as_str()));
        }
        match self.validate_account_restriction_by(
            rule.country,
            rule.account_number_length,
            rule.bank_id_length,
            rule.bank_id_code,
        ) {
            Err(message) => Err(message),
            Ok(()) => Ok(
                Account {
                    id: get_or_create_id(self.id),
                    organisation_id: get_or_create_id(self.organisation_id),
                    country: rule.country,
                    currency: rule.currency,
                    bank_id: self.bank_id.as_ref().unwrap().clone(),
                    bank_id_code: self.bank_id_code.as_ref().unwrap().clone(),
                    bic: self.bic.as_ref().unwrap().clone(),
                    number: self.number.clone(),
                    iban: self.iban.clone(),
                    title: self.title.clone(),
                    classification: self.classification,
                },
            ),
        }
    }

    /// Holds the builder to the restrictions of a country: the length of the
    /// account number, where there is one, then the presence and length of
    /// the bank identifier. A builder that passes has the scheme of its bank
    /// identifier set to the expected one; one that fails stays as it was.
    fn validate_account_restriction_by(
        &mut self,
        country: Country,
        expected_number_length: u8,
        expected_bank_id_length: u8,
        expected_code: KnownBankIdCode,
    ) -> (result: Result<(), String>)
        ensures
            old(self)@.broken_restriction(
                alpha3_text(country@),
                expected_number_length,
                expected_bank_id_length,
            ) matches Some(message) ==> result matches Err(given) && given@ == message,
            old(self)@.broken_restriction(
                alpha3_text(country@),
                expected_number_length,
                expected_bank_id_length,
            ) is None ==> result is Ok,
            result is Err ==> *final(self) == *old(self),
            result is Ok ==> final(self)@ == old(self)@.normalized(expected_code),
    {
        if !self.number_has_length(expected_number_length) {
            return Err(number_length(country.alpha3().as_str(), expected_number_length));
        }
        if !self.bank_id_has_length(expected_bank_id_length) {
            let alpha3 = country.alpha3();
            let message = match &self.bank_id {
                Some(_) => bank_id_length(
                    alpha3.as_str(),
                    expected_bank_id_length,
                    Some(debug_rendering(&self.bank_id).as_str()),
                ),
                None => bank_id_length(alpha3.as_str(), expected_bank_id_length, None),
            };
            return Err(message);
        }
        if !self.holds_scheme(expected_code) {
            let expected: &'static str = expected_code.into();
            self.bank_id_code = Some(expected.to_owned());
        }
        Ok(())
    }

    /// Whether the account number, where there is one, has a given length.
    fn number_has_length(&self, length: u8) -> (fits: bool)
        ensures
            fits == self@.number_fits(length),
    {
        match &self.number {
            Some(number) => byte_count(number.as_str()) == length as usize,
            None => true,
        }
    }

    /// Whether there is a bank identifier, and of a given length.
    fn bank_id_has_length(&self, length: u8) -> (fits: bool)
        ensures
            fits == self@.bank_id_fits(length),
    {
        match &self.bank_id {
            Some(bank_id) => byte_count(bank_id.as_str()) == length as usize,
            None => false,
        }
    }

    /// Whether the builder holds a given scheme for its bank identifier.
    fn holds_scheme(&self, code: KnownBankIdCode) -> (holds: bool)
        ensures
            holds == (self@.bank_id_code == Some(code.text())),
    {
        let expected: &'static str = code.into();
        match &self.bank_id_code {
            Some(held) => same_text(held.as_str(), expected),
            None => false,
        }
    }

    /// The diagnostic for the scheme that `build` would replace: there is
    /// one exactly where `build` gives an account and has to set the scheme
    /// of the bank identifier, because the builder holds none or another
    /// than the rule's. It carries the country, the scheme that the rule
    /// expects, and what the builder holds. The builder stays as it is.
    pub fn correction(&self) -> (diagnostic: Option<Correction>)
        ensures
            diagnostic is Some <==> self@.corrected(),
            diagnostic matches Some(correction) ==> (self@.rule() matches Some(rule)
                && correction.country == rule.country && correction.expected == rule.bank_id_code
                && correction.rejected.deep_view() == self@.bank_id_code),
    {
        let country = match self.country {
            Some(country) => country,
            None => {
                return None;
            },
        };
        let rule = match rule_for(country) {
            Some(rule) => rule,
            None => {
                return None;
            },
        };
        if self.bic.is_none() || !self.number_has_length(rule.account_number_length)
            || !self.bank_id_has_length(rule.bank_id_length) || self.holds_scheme(
            rule.bank_id_code,
        ) {
            return None;
        }
        Some(
            Correction {
                country: rule.country,
                expected: rule.bank_id_code,
                rejected: self.bank_id_code.clone(),
            },
        )
    }
}

/// The identifier that was given or, where none was, one drawn at random,
/// which is never the nil identifier.
fn get_or_create_id(given: Option<Uuid>) -> (id: Uuid)
    ensures
        keeps(given, id),
        drawn(given, id),
{
    match given {
        Some(id) => id,
        None => Uuid::new_v4(),
    }
}

} // verus!
