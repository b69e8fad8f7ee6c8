use account_model::country::Country;
use account_model::Account;
use isocountry::CountryCode::GBR;

#[test]
fn sends_create_cop_account_request() {
    let account = Account::cop()
        .with_country(Country::from_numeric(GBR.numeric_id()).unwrap())
        .with_bank_id("400300")
        .with_bic("NWBKGB22")
        .mark_business()
        .build()
        .unwrap();

    assert!(!account.id().is_nil());
}

#[test]
fn sepa_starts_from_an_empty_builder() {
    assert_eq!("Country is required", Account::sepa().build().unwrap_err());
    assert_eq!("Country is required", Account::cop().build().unwrap_err());
}
