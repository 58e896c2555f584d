//! Input validation rules.

use iris_backend::errors::IrisError;
use iris_backend::validation::ValidationUtils;

#[test]
fn business_names_must_show_a_visible_character() {
    let empty = String::from("");
    assert!(matches!(
        ValidationUtils::validate_business_name(&empty),
        Err(IrisError::InvalidInput)
    ));
    let blank = String::from("  \t\n ");
    assert!(matches!(
        ValidationUtils::validate_business_name(&blank),
        Err(IrisError::InvalidInput)
    ));
    let fine = String::from("Iris Coffee");
    assert!(ValidationUtils::validate_business_name(&fine).is_ok());
}

#[test]
fn business_names_are_capped_at_one_hundred_characters() {
    let long = "x".repeat(101);
    assert!(matches!(
        ValidationUtils::validate_business_name(&long),
        Err(IrisError::InvalidInput)
    ));
    let edge = "x".repeat(100);
    assert!(ValidationUtils::validate_business_name(&edge).is_ok());
}

#[test]
fn fiat_amounts_must_be_positive_and_bounded() {
    assert!(matches!(
        ValidationUtils::validate_fiat_amount(0),
        Err(IrisError::InvalidInput)
    ));
    assert!(ValidationUtils::validate_fiat_amount(1).is_ok());
    assert!(ValidationUtils::validate_fiat_amount(100_000_000).is_ok());
    assert!(matches!(
        ValidationUtils::validate_fiat_amount(100_000_001),
        Err(IrisError::InvalidInput)
    ));
}

#[test]
fn addresses_need_a_plausible_length() {
    let blank = String::from("   ");
    assert!(ValidationUtils::validate_bitcoin_address(&blank).is_err());
    let short = String::from("tooshort");
    assert!(matches!(
        ValidationUtils::validate_bitcoin_address(&short),
        Err(IrisError::InvalidInput)
    ));
    let long = "a".repeat(63);
    assert!(ValidationUtils::validate_bitcoin_address(&long).is_err());
    let fine = String::from("mzJ9Gi7vvN1mdTrmPFHyTTVLyEjKCTsSfF");
    assert!(ValidationUtils::validate_bitcoin_address(&fine).is_ok());
    let edge = "a".repeat(26);
    assert!(ValidationUtils::validate_bitcoin_address(&edge).is_ok());
}

#[test]
fn descriptions_may_be_absent_or_short() {
    assert!(ValidationUtils::validate_invoice_description(&None).is_ok());
    let short = Some(String::from("two espressi"));
    assert!(ValidationUtils::validate_invoice_description(&short).is_ok());
    let edge = Some("d".repeat(500));
    assert!(ValidationUtils::validate_invoice_description(&edge).is_ok());
    let long = Some("d".repeat(501));
    assert!(matches!(
        ValidationUtils::validate_invoice_description(&long),
        Err(IrisError::InvalidInput)
    ));
}

#[test]
fn satoshi_amounts_stay_within_the_supply() {
    assert!(matches!(
        ValidationUtils::validate_satoshi_amount(0),
        Err(IrisError::InvalidInput)
    ));
    assert!(ValidationUtils::validate_satoshi_amount(1).is_ok());
    assert!(ValidationUtils::validate_satoshi_amount(2_100_000_000_000_000).is_ok());
    assert!(matches!(
        ValidationUtils::validate_satoshi_amount(2_100_000_000_000_001),
        Err(IrisError::InvalidInput)
    ));
}
