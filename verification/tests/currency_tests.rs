use valqeron::domain::listing::{CurrencyCode as ListingCurrencyCode, CurrencyCodeError as ListingCurrencyCodeError};
use valqeron::identifiers::{CurrencyCode, CurrencyCodeError};

#[test]
fn identifiers_currency_code_parses_and_normalizes() {
    let currency_result = CurrencyCode::parse(" brl ");
    assert!(currency_result.is_ok());
    let Some(currency) = currency_result.ok() else {
        return;
    };
    assert_eq!(currency.as_str(), "BRL");
    assert_eq!(currency.as_bytes(), b"BRL");
    assert_eq!(currency.to_string(), "BRL");
}

#[test]
fn identifiers_currency_code_rejects_empty() {
    assert!(matches!(
        CurrencyCode::parse(""),
        Err(CurrencyCodeError::Empty)
    ));
}

#[test]
fn identifiers_currency_code_rejects_wrong_length() {
    assert!(matches!(
        CurrencyCode::parse("US"),
        Err(CurrencyCodeError::InvalidLength)
    ));
    assert!(matches!(
        CurrencyCode::parse("USDT"),
        Err(CurrencyCodeError::InvalidLength)
    ));
}

#[test]
fn identifiers_currency_code_rejects_non_letters() {
    assert!(matches!(
        CurrencyCode::parse("US1"),
        Err(CurrencyCodeError::InvalidCharacter)
    ));
}

#[test]
fn identifiers_currency_code_from_str_round_trips() {
    let currency_result = "usd".parse::<CurrencyCode>();
    assert!(matches!(currency_result, Ok(c) if c.as_str() == "USD"));
}

#[test]
fn listing_currency_code_parses_and_normalizes() {
    let currency_result = ListingCurrencyCode::parse(" brl ");
    assert!(currency_result.is_ok());
    let Some(currency) = currency_result.ok() else {
        return;
    };
    assert_eq!(currency.as_str(), "BRL");
    assert_eq!(currency.as_bytes(), b"BRL");
    assert_eq!(currency.to_string(), "BRL");
}

#[test]
fn listing_currency_code_rejects_empty() {
    assert!(matches!(
        ListingCurrencyCode::parse(""),
        Err(ListingCurrencyCodeError::Empty)
    ));
}

#[test]
fn listing_currency_code_rejects_wrong_length() {
    assert!(matches!(
        ListingCurrencyCode::parse("US"),
        Err(ListingCurrencyCodeError::InvalidLength)
    ));
    assert!(matches!(
        ListingCurrencyCode::parse("USDT"),
        Err(ListingCurrencyCodeError::InvalidLength)
    ));
}

#[test]
fn listing_currency_code_rejects_non_letters() {
    assert!(matches!(
        ListingCurrencyCode::parse("US1"),
        Err(ListingCurrencyCodeError::InvalidCharacter)
    ));
}

#[test]
fn listing_currency_code_from_str_round_trips() {
    let currency_result = "usd".parse::<ListingCurrencyCode>();
    assert!(matches!(currency_result, Ok(c) if c.as_str() == "USD"));
}


