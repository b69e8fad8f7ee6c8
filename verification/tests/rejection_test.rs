use account_model::rejection::bank_id_length;
use account_model::rejection::bic_required;
use account_model::rejection::number_length;
use account_model::rejection::unsupported_country;

#[test]
fn unsupported_country_message_names_the_country() {
    assert_eq!("Unsupported country France", unsupported_country("France"));
    assert_eq!("Unsupported country ", unsupported_country(""));
}

#[test]
fn bic_required_message_names_the_country() {
    assert_eq!("GBR requires Bic", bic_required("GBR"));
    assert_eq!("FRA requires Bic", bic_required("FRA"));
}

#[test]
fn number_length_message_names_country_and_length() {
    assert_eq!("GBR requires 8-character long Account Number", number_length("GBR", 8));
    assert_eq!("AUS requires 10-character long Account Number", number_length("AUS", 10));
    assert_eq!("USA requires 255-character long Account Number", number_length("USA", 255));
    assert_eq!("USA requires 0-character long Account Number", number_length("USA", 0));
}

#[test]
fn bank_id_length_message_shows_what_was_found() {
    assert_eq!(
        "GBR requires 6-character BankId, got absent",
        bank_id_length("GBR", 6, None)
    );
    assert_eq!(
        "GBR requires 6-character BankId, got 'Some(\"lt-6c\")'",
        bank_id_length("GBR", 6, Some("Some(\"lt-6c\")"))
    );
    assert_eq!(
        "DEU requires 108-character BankId, got ''",
        bank_id_length("DEU", 108, Some(""))
    );
}
