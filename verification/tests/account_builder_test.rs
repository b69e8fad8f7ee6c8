use account_model::account::account_builder::Builder;
use account_model::account::Classification::{BUSINESS, PERSONAL};
use account_model::account::KnownBankIdCode;
use account_model::country::Country;
use iso_currency::Currency::GBP;
use isocountry::CountryCode;
use isocountry::CountryCode::{FRA, GBR, USA};
use uuid::Uuid;

fn country(code: CountryCode) -> Country {
    Country::from_numeric(code.numeric_id()).unwrap()
}

fn as_string(code: KnownBankIdCode) -> String {
    let value: &str = code.into();
    value.to_string()
}

fn rejection_of(
    code: CountryCode,
    bic: Option<&str>,
    number: Option<&str>,
    bank_id: Option<&str>,
) -> String {
    let mut builder: Builder = Builder::new_account();
    let builder: &mut Builder = &mut builder;

    builder.with_country(country(code)).mark_business();

    if bank_id.is_some() {
        builder.with_bank_id(bank_id.unwrap());
    }
    if bic.is_some() {
        builder.with_bic(bic.unwrap());
    }
    if number.is_some() {
        builder.with_number(number.unwrap());
    }

    builder.build().unwrap_err()
}

#[test]
fn should_fail_as_no_country() {
    let actual = Builder::new_account().build().unwrap_err();

    // then
    assert_eq!("Country is required", actual);
}

#[test]
#[allow(non_snake_case)]
fn GBR_invalid_bic() {
    assert_eq!("GBR requires Bic", rejection_of(GBR, None, None, None));
}

#[test]
#[allow(non_snake_case)]
fn GBR_no_bank_id() {
    assert_eq!(
        "GBR requires 6-character BankId, got absent",
        rejection_of(GBR, Some("NWBKGB22"), None, None)
    );
}

#[test]
#[allow(non_snake_case)]
fn GBR_too_short_bank_id() {
    assert_eq!(
        "GBR requires 6-character BankId, got 'Some(\"lt-6c\")'",
        rejection_of(GBR, Some("NWBKGB22"), None, Some("lt-6c"))
    );
}

#[test]
#[allow(non_snake_case)]
fn GBR_too_long_bank_id() {
    assert_eq!(
        "GBR requires 6-character BankId, got 'Some(\"gt6char\")'",
        rejection_of(GBR, Some("NWBKGB22"), None, Some("gt6char"))
    );
}

#[test]
#[allow(non_snake_case)]
fn GBR_too_short_number() {
    assert_eq!(
        "GBR requires 8-character long Account Number",
        rejection_of(GBR, Some("NWBKGB22"), Some("lt-8chr"), Some("400300"))
    );
}

#[test]
#[allow(non_snake_case)]
fn GBR_too_long_number() {
    assert_eq!(
        "GBR requires 8-character long Account Number",
        rejection_of(GBR, Some("NWBKGB22"), Some("gt-8chars"), Some("400300"))
    );
}

#[test]
fn should_build_account_in_gbr() {
    let account = Builder::new_account()
        .with_country(country(GBR))
        .with_bank_id("400300")
        .with_bic("NWBKGB22")
        .mark_business()
        .build()
        .unwrap();

    // then
    assert!(!account.id().is_nil());
    assert!(!account.organisation_id().is_nil());
    assert_eq!("NWBKGB22", account.bic());
    assert_eq!("400300", account.bank_id());
    assert_eq!(as_string(KnownBankIdCode::GbBankIdCode), account.bank_id_code());
    assert_eq!(Ok(GBR), CountryCode::for_id(account.country().numeric()));
    assert_eq!(Some(GBP), iso_currency::Currency::from_numeric(account.currency().numeric));
    assert_eq!(BUSINESS, account.classification());
}

#[test]
fn should_build_full_account_in_gbr() {
    let id = Uuid::new_v4();
    let org_id = Uuid::new_v4();
    let account = Builder::new_account()
        .with_account_id(id)
        .with_organisation_id(org_id)
        .with_country(country(GBR))
        .with_bank_id("400300")
        .with_bic("NWBKGB22")
        .mark_personal()
        .with_number("12345678")
        .with_bank_id_code("invalid")
        .with_iban("iban-code")
        .build()
        .unwrap();

    // then
    assert_eq!(id, account.id());
    assert_eq!(org_id, account.organisation_id());
    assert_eq!("NWBKGB22", account.bic());
    assert_eq!("400300", account.bank_id());
    assert_eq!(as_string(KnownBankIdCode::GbBankIdCode), account.bank_id_code());
    assert_eq!(Ok(GBR), CountryCode::for_id(account.country().numeric()));
    assert_eq!(Some(GBP), iso_currency::Currency::from_numeric(account.currency().numeric));
    assert_eq!(PERSONAL, account.classification());
    assert_eq!("12345678", account.number().clone().unwrap().to_string());
    assert_eq!("iban-code", account.iban().clone().unwrap().to_string());
}

#[test]
fn no_country_is_reported_whatever_else_is_set() {
    let actual = Builder::new_account()
        .with_account_id(Uuid::new_v4())
        .with_organisation_id(Uuid::new_v4())
        .with_bank_id("too-long-for-any-rule")
        .with_bank_id_code("GBDSC")
        .with_bic("NWBKGB22")
        .with_number("1")
        .with_iban("iban-code")
        .mark_business()
        .build()
        .unwrap_err();

    assert_eq!("Country is required", actual);
}

#[test]
fn country_without_rule_is_reported_by_name() {
    assert_eq!(
        "Unsupported country France",
        rejection_of(FRA, Some("NWBKGB22"), Some("12345678"), Some("400300"))
    );
    assert_eq!(
        "Unsupported country United States of America",
        rejection_of(USA, None, None, None)
    );
}

#[test]
fn missing_bic_is_reported_before_any_length() {
    assert_eq!(
        "GBR requires Bic",
        rejection_of(GBR, None, Some("lt-8chr"), Some("lt-6c"))
    );
}

#[test]
fn number_length_is_reported_whatever_the_bank_id() {
    let expected = "GBR requires 8-character long Account Number";
    assert_eq!(expected, rejection_of(GBR, Some("NWBKGB22"), Some("lt-8chr"), None));
    assert_eq!(expected, rejection_of(GBR, Some("NWBKGB22"), Some("lt-8chr"), Some("lt-6c")));
    assert_eq!(expected, rejection_of(GBR, Some("NWBKGB22"), Some(""), Some("400300")));
}

#[test]
fn bank_id_is_shown_as_its_debug_rendering() {
    assert_eq!(
        "GBR requires 6-character BankId, got 'Some(\"\")'",
        rejection_of(GBR, Some("NWBKGB22"), None, Some(""))
    );
    assert_eq!(
        "GBR requires 6-character BankId, got 'Some(\"a\\\"b\")'",
        rejection_of(GBR, Some("NWBKGB22"), Some("12345678"), Some("a\"b"))
    );
}

#[test]
fn lengths_are_counted_in_bytes() {
    // five characters, six bytes
    let account = Builder::new_account()
        .with_country(country(GBR))
        .with_bank_id("4003\u{e9}")
        .with_bic("NWBKGB22")
        .build()
        .unwrap();
    assert_eq!("4003\u{e9}", account.bank_id());

    // six characters, seven bytes
    assert_eq!(
        "GBR requires 6-character BankId, got 'Some(\"40030\u{e9}\")'",
        rejection_of(GBR, Some("NWBKGB22"), None, Some("40030\u{e9}"))
    );
}

#[test]
fn absent_bank_id_code_becomes_the_code_of_the_country() {
    let account = Builder::new_account()
        .with_country(country(GBR))
        .with_bank_id("400300")
        .with_bic("NWBKGB22")
        .build()
        .unwrap();

    assert_eq!("GBDSC", account.bank_id_code());
}

#[test]
fn wrong_bank_id_code_becomes_the_code_of_the_country() {
    let account = Builder::new_account()
        .with_country(country(GBR))
        .with_bank_id("400300")
        .with_bic("NWBKGB22")
        .with_bank_id_code("USABA")
        .build()
        .unwrap();

    assert_eq!("GBDSC", account.bank_id_code());
}

#[test]
fn right_bank_id_code_stays() {
    let account = Builder::new_account()
        .with_country(country(GBR))
        .with_bank_id("400300")
        .with_bic("NWBKGB22")
        .with_bank_id_code("GBDSC")
        .build()
        .unwrap();

    assert_eq!("GBDSC", account.bank_id_code());
}

#[test]
fn building_twice_gives_the_same_account_but_for_drawn_ids() {
    let id = Uuid::new_v4();
    let mut builder = Builder::new_account();
    builder
        .with_account_id(id)
        .with_country(country(GBR))
        .with_bank_id("400300")
        .with_bic("NWBKGB22")
        .with_bank_id_code("invalid")
        .with_number("12345678");

    let first = builder.build().unwrap();
    let second = builder.build().unwrap();

    assert_eq!(id, first.id());
    assert_eq!(id, second.id());
    assert_ne!(first.organisation_id(), second.organisation_id());
    assert_eq!(first.bank_id_code(), second.bank_id_code());
    assert_eq!(first.bank_id(), second.bank_id());
    assert_eq!(first.bic(), second.bic());
    assert_eq!(first.number(), second.number());
    assert_eq!(first.country(), second.country());
    assert_eq!(first.currency(), second.currency());
    assert_eq!(first.classification(), second.classification());
}

#[test]
fn rejected_builder_can_be_completed_and_built() {
    let mut builder = Builder::new_account();
    builder.with_country(country(GBR)).with_bank_id("400300");
    assert_eq!("GBR requires Bic", builder.build().unwrap_err());

    builder.with_bic("NWBKGB22").with_number("lt-8chr");
    assert_eq!(
        "GBR requires 8-character long Account Number",
        builder.build().unwrap_err()
    );

    builder.with_number("12345678");
    let account = builder.build().unwrap();
    assert_eq!("400300", account.bank_id());
    assert_eq!(&Some("12345678".to_string()), account.number());
}

#[test]
fn drawn_ids_are_distinct_and_not_nil() {
    let mut builder = Builder::new_account();
    builder
        .with_country(country(GBR))
        .with_bank_id("400300")
        .with_bic("NWBKGB22");

    let first = builder.build().unwrap();
    let second = builder.build().unwrap();

    assert!(!first.id().is_nil());
    assert!(!first.organisation_id().is_nil());
    assert!(!second.id().is_nil());
    assert!(!second.organisation_id().is_nil());
    assert_ne!(first.id(), first.organisation_id());
    assert_ne!(first.id(), second.id());
    assert_ne!(first.organisation_id(), second.organisation_id());
}

#[test]
fn given_ids_are_kept_even_when_nil() {
    let account = Builder::new_account()
        .with_account_id(Uuid::nil())
        .with_organisation_id(Uuid::from_u128(7))
        .with_country(country(GBR))
        .with_bank_id("400300")
        .with_bic("NWBKGB22")
        .build()
        .unwrap();

    assert_eq!(Uuid::nil(), account.id());
    assert_eq!(Uuid::from_u128(7), account.organisation_id());
}

#[test]
fn last_classification_wins() {
    let account = Builder::new_account()
        .with_country(country(GBR))
        .with_bank_id("400300")
        .with_bic("NWBKGB22")
        .mark_business()
        .mark_personal()
        .mark_business()
        .build()
        .unwrap();
    assert_eq!(BUSINESS, account.classification());

    let account = Builder::new_account()
        .with_country(country(GBR))
        .with_bank_id("400300")
        .with_bic("NWBKGB22")
        .mark_business()
        .mark_personal()
        .build()
        .unwrap();
    assert_eq!(PERSONAL, account.classification());
}

#[test]
fn classification_is_personal_unless_marked() {
    let account = Builder::new_account()
        .with_country(country(GBR))
        .with_bank_id("400300")
        .with_bic("NWBKGB22")
        .build()
        .unwrap();

    assert_eq!(PERSONAL, account.classification());
    assert_eq!(&None, account.number());
    assert_eq!(&None, account.iban());
    assert_eq!(&None, account.title());
}

#[test]
fn a_setter_called_again_replaces_the_value() {
    let account = Builder::new_account()
        .with_country(country(FRA))
        .with_country(country(GBR))
        .with_bank_id("lt-6c")
        .with_bank_id("400300")
        .with_bic("first")
        .with_bic("NWBKGB22")
        .with_number("lt-8chr")
        .with_number("12345678")
        .with_iban("first")
        .with_iban("iban-code")
        .build()
        .unwrap();

    assert_eq!("400300", account.bank_id());
    assert_eq!("NWBKGB22", account.bic());
    assert_eq!(&Some("12345678".to_string()), account.number());
    assert_eq!(&Some("iban-code".to_string()), account.iban());
}

#[test]
fn iban_is_passed_through_unchecked() {
    let account = Builder::new_account()
        .with_country(country(GBR))
        .with_bank_id("400300")
        .with_bic("NWBKGB22")
        .with_iban("")
        .build()
        .unwrap();

    assert_eq!(&Some(String::new()), account.iban());
}
