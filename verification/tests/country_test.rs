use account_model::account::KnownBankIdCode;
use account_model::country::Country;
use account_model::rule::rule_for;
use account_model::rule::Currency;
use account_model::rule::POUND_STERLING;
use account_model::rule::UNITED_KINGDOM;
use isocountry::CountryCode;

#[test]
fn united_kingdom_is_known_by_its_numeric_code() {
    let country = Country::from_numeric(826).unwrap();

    assert_eq!(826, country.numeric());
    assert_eq!("GBR", country.alpha3());
    assert_eq!("United Kingdom of Great Britain and Northern Ireland", country.name());
}

#[test]
fn names_come_from_the_country_not_from_the_number() {
    let france = Country::from_numeric(250).unwrap();
    assert_eq!("FRA", france.alpha3());
    assert_eq!("France", france.name());

    let afghanistan = Country::from_numeric(4).unwrap();
    assert_eq!("AFG", afghanistan.alpha3());
    assert_eq!("Afghanistan", afghanistan.name());
}

#[test]
fn unassigned_numbers_are_no_country() {
    assert_eq!(None, Country::from_numeric(0));
    assert_eq!(None, Country::from_numeric(1));
    assert_eq!(None, Country::from_numeric(825));
    assert_eq!(None, Country::from_numeric(827));
    assert_eq!(None, Country::from_numeric(1000));
    assert_eq!(None, Country::from_numeric(u32::MAX));
}

#[test]
fn every_country_code_is_a_country() {
    for code in CountryCode::iter() {
        let country = Country::from_numeric(code.numeric_id()).unwrap();
        assert_eq!(code.numeric_id(), country.numeric());
        assert_eq!(code.alpha3(), country.alpha3());
        assert_eq!(code.to_string(), country.name());
    }
}

#[test]
fn constants_are_those_of_the_standards() {
    assert_eq!(CountryCode::GBR.numeric_id(), UNITED_KINGDOM);
    assert_eq!(iso_currency::Currency::GBP.numeric(), POUND_STERLING);
}

#[test]
fn united_kingdom_has_a_rule() {
    let country = Country::from_numeric(CountryCode::GBR.numeric_id()).unwrap();
    let rule = rule_for(country).unwrap();

    assert_eq!(country, rule.country);
    assert_eq!(Currency { numeric: 826 }, rule.currency);
    assert_eq!(8, rule.account_number_length);
    assert_eq!(6, rule.bank_id_length);
    assert_eq!(KnownBankIdCode::GbBankIdCode, rule.bank_id_code);
}

#[test]
fn no_other_country_has_a_rule() {
    for code in CountryCode::iter() {
        let country = Country::from_numeric(code.numeric_id()).unwrap();
        assert_eq!(*code == CountryCode::GBR, rule_for(country).is_some());
    }
}
