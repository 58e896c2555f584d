//! The fixed-rate conversion oracle and its round-trip behavior.

use iris_backend::currency::{Currency, ExchangeService};
use iris_backend::errors::IrisError;

#[test]
fn rates_match_the_fixed_table() {
    assert_eq!(ExchangeService::get_btc_rate(&Currency::USD), 95_000);
    assert_eq!(ExchangeService::get_btc_rate(&Currency::GBP), 75_000);
    assert_eq!(ExchangeService::get_btc_rate(&Currency::SGD), 128_000);
    assert_eq!(ExchangeService::get_btc_rate(&Currency::IDR), 1_500_000_000);
}

#[test]
fn one_hundred_usd_is_105263_satoshi() {
    // floor(100 / 95000 * 100_000_000)
    assert_eq!(ExchangeService::fiat_to_satoshi(10_000, &Currency::USD), 105_263);
}

#[test]
fn conversion_truncates_rather_than_rounds() {
    // 1500 IDR buys exactly 100 satoshi at 1.5e9 per coin.
    assert_eq!(ExchangeService::fiat_to_satoshi(150_000, &Currency::IDR), 100);
    // One cent of USD is 10526.31... millisatoshi, truncated to 10 satoshi.
    assert_eq!(ExchangeService::fiat_to_satoshi(1, &Currency::USD), 10);
    // 105263 satoshi is worth 9999.985 cents, truncated to 9999.
    assert_eq!(ExchangeService::satoshi_to_fiat(105_263, &Currency::USD), 9_999);
}

#[test]
fn satoshi_to_fiat_handles_whole_coins() {
    assert_eq!(
        ExchangeService::satoshi_to_fiat(100_000_000, &Currency::USD),
        9_500_000
    );
    assert_eq!(
        ExchangeService::satoshi_to_fiat(2_100_000_000_000_000, &Currency::IDR),
        3_150_000_000_000_000_000
    );
}

#[test]
fn round_trip_loses_at_most_one_smallest_unit_of_truncation() {
    let rates: [(Currency, u128); 4] = [
        (Currency::USD, 95_000),
        (Currency::GBP, 75_000),
        (Currency::SGD, 128_000),
        (Currency::IDR, 1_500_000_000),
    ];
    let samples: [u64; 6] = [1, 97, 10_000, 12_345, 999_999, 100_000_000];
    for (currency, rate) in rates {
        for cents in samples {
            let sat = ExchangeService::fiat_to_satoshi(cents, &currency);
            let back = ExchangeService::satoshi_to_fiat(sat, &currency);
            assert!(back <= cents);
            // The loss is under one cent plus the fiat value of one satoshi.
            let loss_scaled = (cents - back) as u128 * 100_000_000u128;
            assert!(loss_scaled < 100_000_000u128 + rate * 100);
        }
    }
}

#[test]
fn currency_codes_round_trip() {
    for c in [Currency::USD, Currency::GBP, Currency::SGD, Currency::IDR] {
        let code = String::from(c.code());
        assert_eq!(Currency::from_code(&code), Ok(c));
    }
}

#[test]
fn unknown_currency_code_is_unsupported() {
    let code = String::from("EUR");
    assert_eq!(Currency::from_code(&code), Err(IrisError::UnsupportedCurrency));
    let empty = String::from("");
    assert_eq!(Currency::from_code(&empty), Err(IrisError::UnsupportedCurrency));
}

#[test]
fn all_currencies_lists_the_rate_table() {
    let all = iris_backend::currency::get_all_currencies();
    assert_eq!(
        all,
        vec![Currency::USD, Currency::GBP, Currency::SGD, Currency::IDR]
    );
}
