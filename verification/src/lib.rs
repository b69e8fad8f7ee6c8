//! Validation and construction of bank account records for payment
//! initiation.
//!
//! A caller stages the identifiers of an account in a
//! [`account::account_builder::Builder`] and asks it to `build`. The builder
//! looks up the rule of the account's country, holds every staged field to
//! it, and gives either a consistent [`Account`] or the first reason to
//! reject it.

use crate::account::account_builder::Builder;
use crate::account::account_builder::BuilderView;
use crate::account::Classification;
use crate::country::Country;
use crate::rule::rule_of;
use crate::rule::Currency;
use crate::text::byte_length;
use uuid::Uuid;
use vstd::prelude::*;

pub mod account;
pub mod correction;
pub mod country;
pub mod identity;
pub mod rejection;
pub mod rule;
pub mod text;

verus! {

/// The identification of a private person.
#[derive(Debug, PartialEq, Eq)]
pub struct PrivateIdentification<'a> {
    name: &'a str,
    surname: &'a str,
    birth_date: &'a str,
    birth_country: Country,
    document_number: &'a str,
    address_line: &'a str,
    city: &'a str,
    country: Country,
}

/// A bank account that has passed the rule of its country.
#[derive(Debug, PartialEq, Eq)]
pub struct Account {
    id: Uuid,
    organisation_id: Uuid,
    country: Country,
    currency: Currency,
    bank_id_code: String,
    bank_id: String,
    bic: String,
    number: Option<String>,
    iban: Option<String>,
    title: Option<String>,
    classification: Classification,
}

/// What an account holds, with each text as its characters.
pub struct AccountView {
    pub id: Uuid,
    pub organisation_id: Uuid,
    pub country: Country,
    pub currency: Currency,
    pub bank_id_code: Seq<char>,
    pub bank_id: Seq<char>,
    pub bic: Seq<char>,
    pub number: Option<Seq<char>>,
    pub iban: Option<Seq<char>>,
    pub title: Option<Seq<char>>,
    pub classification: Classification,
}

impl AccountView {
    /// An account is consistent when its country has a rule and the account
    /// follows it: the currency and the scheme of the bank identifier are the
    /// rule's, the bank identifier has the rule's length, and so has the
    /// account number where there is one.
    pub open spec fn consistent(self) -> bool {
        &&& rule_of(self.country) matches Some(rule)
        &&& self.currency == rule.currency
        &&& self.bank_id_code == rule.bank_id_code.text()
        &&& byte_length(self.bank_id) == rule.bank_id_length
        &&& self.number matches Some(number) ==> byte_length(number) == rule.account_number_length
    }
}

impl View for Account {
    type V = AccountView;

    closed spec fn view(&self) -> AccountView {
        AccountView {
            id: self.id,
            organisation_id: self.organisation_id,
            country: self.country,
            currency: self.currency,
            bank_id_code: self.bank_id_code@,
            bank_id: self.bank_id@,
            bic: self.bic@,
            number: self.number.deep_view(),
            iban: self.iban.deep_view(),
            title: self.title.deep_view(),
            classification: self.classification,
        }
    }
}

impl Account {
    /// An empty builder for an account that is to be checked against the name
    /// of its payee.
    pub fn cop() -> (builder: Builder)
        ensures
            builder@ == BuilderView::empty(),
    {
        return Builder::new_account();
    }

    /// An empty builder for an account of the single euro payments area.
    pub fn sepa() -> (builder: Builder)
        ensures
            builder@ == BuilderView::empty(),
    {
        return Builder::new_account();
    }

    /// The identifier of the account.
    pub fn id(&self) -> (id: Uuid)
        ensures
            id == self@.id,
    {
        self.id
    }

    /// The identifier of the organisation that holds the account.
    pub fn organisation_id(&self) -> (id: Uuid)
        ensures
            id == self@.organisation_id,
    {
        self.organisation_id
    }

    /// The country of the account.
    pub fn country(&self) -> (country: Country)
        ensures
            country == self@.country,
    {
        self.country
    }

    /// The currency of the account, which is that of its country's rule.
    pub fn currency(&self) -> (currency: Currency)
        ensures
            currency == self@.currency,
    {
        self.currency
    }

    /// The scheme of the bank identifier.
    pub fn bank_id_code(&self) -> (code: &str)
        ensures
            code@ == self@.bank_id_code,
    {
        self.bank_id_code.as_str()
    }

    /// The bank identifier.
    pub fn bank_id(&self) -> (bank_id: &str)
        ensures
            bank_id@ == self@.bank_id,
    {
        self.bank_id.as_str()
    }

    /// The BIC.
    pub fn bic(&self) -> (bic: &str)
        ensures
            bic@ == self@.bic,
    {
        self.bic.as_str()
    }

    /// The account number, if the account has one.
    pub fn number(&self) -> (number: &Option<String>)
        ensures
            number.deep_view() == self@.number,
    {
        &self.number
    }

    /// The IBAN, if the account has one.
    pub fn iban(&self) -> (iban: &Option<String>)
        ensures
            iban.deep_view() == self@.iban,
    {
        &self.iban
    }

    /// The title of the account, if it has one.
    pub fn title(&self) -> (title: &Option<String>)
        ensures
            title.deep_view() == self@.title,
    {
        &self.title
    }

    /// Whether the account is held by an individual or by an entity.
    pub fn classification(&self) -> (classification: Classification)
        ensures
            classification == self@.classification,
    {
        self.classification
    }
}

/// An account with what a confirmation of its payee asks for.
#[derive(Debug, PartialEq, Eq)]
pub struct CopAccount<'a> {
    account: Account,
    first_name: &'a str,
    bank_account_names: &'a Vec<String>,
    bank_account_classification: Classification,
    is_join_bank_account: bool,
    is_matching_opt_out_account: bool,
    secondary_identification: &'a str,
}

/// An account of the single euro payments area, with the identification of
/// its holder.
#[derive(Debug, PartialEq, Eq)]
pub struct SepaAccount<'a> {
    account: Account,
    identification: &'a PrivateIdentification<'a>,
}

} // verus!
