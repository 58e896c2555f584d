//! The fixed rate table and fiat/satoshi conversion.
//!
//! Every amount is an integer: fiat in cents, settlement value in satoshi.
//! Conversions truncate (floor); callers must not assume rounding.

use vstd::prelude::*;
use vstd::arithmetic::div_mod::{lemma_fundamental_div_mod, lemma_mod_division_less_than_divisor};
use vstd::arithmetic::mul::{lemma_mul_inequality, lemma_mul_upper_bound};
use crate::constants::{CENTS_PER_WHOLE, MAX_FIAT_CENTS, MAX_SATOSHI_SUPPLY, SATOSHI_PER_BTC};
use crate::errors::IrisError;

verus! {

/// The fiat currencies the rate table recognizes.
#[derive(Clone, Copy, Debug, PartialEq, Eq, Structural)]
pub enum Currency {
    USD,
    GBP,
    SGD,
    IDR,
}

/// Whole-fiat value of one whole settlement coin, per currency.
pub open spec fn spec_rate(c: Currency) -> int {
    match c {
        Currency::USD => 95000,
        Currency::GBP => 75000,
        Currency::SGD => 128000,
        Currency::IDR => 1_500_000_000,
    }
}

/// `floor(cents * SATOSHI_PER_BTC / (rate * CENTS_PER_WHOLE))`: the satoshi
/// amount worth `cents` of currency `c` at the fixed rate.
pub open spec fn spec_fiat_to_satoshi(cents: int, c: Currency) -> int {
    (cents * SATOSHI_PER_BTC) / (spec_rate(c) * CENTS_PER_WHOLE)
}

/// `floor(satoshi * rate * CENTS_PER_WHOLE / SATOSHI_PER_BTC)`: the cent
/// amount of currency `c` worth `satoshi` at the fixed rate.
pub open spec fn spec_satoshi_to_fiat(satoshi: int, c: Currency) -> int {
    (satoshi * spec_rate(c) * CENTS_PER_WHOLE) / (SATOSHI_PER_BTC as int)
}

impl Currency {
    /// The three-letter code of the currency.
    pub open spec fn code_spec(self) -> Seq<char> {
        match self {
            Currency::USD => "USD"@,
            Currency::GBP => "GBP"@,
            Currency::SGD => "SGD"@,
            Currency::IDR => "IDR"@,
        }
    }

    /// The three-letter code of the currency.
    pub fn code(&self) -> (r: &'static str)
        ensures
            r@ == self.code_spec(),
    {
        match self {
            Currency::USD => "USD",
            Currency::GBP => "GBP",
            Currency::SGD => "SGD",
            Currency::IDR => "IDR",
        }
    }

    /// Which currency, if any, a code names.
    pub open spec fn spec_from_code(code: Seq<char>) -> Result<Currency, IrisError> {
        if code == "USD"@ {
            Ok(Currency::USD)
        } else if code == "GBP"@ {
            Ok(Currency::GBP)
        } else if code == "SGD"@ {
            Ok(Currency::SGD)
        } else if code == "IDR"@ {
            Ok(Currency::IDR)
        } else {
            Err(IrisError::UnsupportedCurrency)
        }
    }

    /// Resolves a currency code; any code outside the rate table is
    /// rejected as `UnsupportedCurrency`.
    pub fn from_code(code: &String) -> (r: Result<Currency, IrisError>)
        ensures
            r == Self::spec_from_code(code@),
    {
        if *code == String::from_str("USD") {
            Ok(Currency::USD)
        } else if *code == String::from_str("GBP") {
            Ok(Currency::GBP)
        } else if *code == String::from_str("SGD") {
            Ok(Currency::SGD)
        } else if *code == String::from_str("IDR") {
            Ok(Currency::IDR)
        } else {
            Err(IrisError::UnsupportedCurrency)
        }
    }
}

/// The conversion oracle: a pure rate table, no state.
pub struct ExchangeService;

impl ExchangeService {
    /// Whole-fiat value of one whole settlement coin.
    pub fn get_btc_rate(currency: &Currency) -> (r: u64)
        ensures
            r == spec_rate(*currency),
    {
        match currency {
            Currency::USD => 95000,
            Currency::GBP => 75000,
            Currency::SGD => 128000,
            Currency::IDR => 1_500_000_000,
        }
    }

    /// Converts a fiat amount in cents to satoshi, truncating.
    pub fn fiat_to_satoshi(fiat_cents: u64, currency: &Currency) -> (r: u64)
        requires
            fiat_cents <= MAX_FIAT_CENTS,
        ensures
            r == spec_fiat_to_satoshi(fiat_cents as int, *currency),
            r <= MAX_SATOSHI_SUPPLY,
    {
        let rate = Self::get_btc_rate(currency);
        let numerator = fiat_cents * SATOSHI_PER_BTC;
        let denominator = rate * CENTS_PER_WHOLE;
        let r = numerator / denominator;
        proof {
            assert(numerator < denominator * MAX_SATOSHI_SUPPLY) by {
                lemma_mul_inequality(7_500_000, denominator as int, MAX_SATOSHI_SUPPLY as int);
            }
            assert(r <= MAX_SATOSHI_SUPPLY) by {
                vstd::arithmetic::div_mod::lemma_multiply_divide_lt(numerator as int,
                    denominator as int, MAX_SATOSHI_SUPPLY as int);
            }
        }
        r
    }

    /// Converts a satoshi amount to fiat cents, truncating.
    pub fn satoshi_to_fiat(satoshi: u64, currency: &Currency) -> (r: u64)
        requires
            satoshi <= MAX_SATOSHI_SUPPLY,
        ensures
            r == spec_satoshi_to_fiat(satoshi as int, *currency),
    {
        let rate = Self::get_btc_rate(currency);
        proof {
            lemma_mul_upper_bound(satoshi as int, MAX_SATOSHI_SUPPLY as int, rate as int,
                1_500_000_000);
            lemma_mul_inequality(satoshi as int * rate as int,
                MAX_SATOSHI_SUPPLY as int * 1_500_000_000, CENTS_PER_WHOLE as int);
        }
        let numerator: u128 = (satoshi as u128) * (rate as u128) * (CENTS_PER_WHOLE as u128);
        let wide: u128 = numerator / (SATOSHI_PER_BTC as u128);
        proof {
            assert(wide <= u64::MAX) by {
                assert(numerator as int / (SATOSHI_PER_BTC as int)
                    <= 315_000_000_000_000_000_000_000_000int / (SATOSHI_PER_BTC as int)) by {
                    vstd::arithmetic::div_mod::lemma_div_is_ordered(numerator as int,
                        315_000_000_000_000_000_000_000_000int, SATOSHI_PER_BTC as int);
                }
            }
        }
        wide as u64
    }
}

/// The recognized currencies, in their fixed order.
pub fn get_all_currencies() -> (r: Vec<Currency>)
    ensures
        r@ == seq![Currency::USD, Currency::GBP, Currency::SGD, Currency::IDR],
{
    let mut r: Vec<Currency> = Vec::new();
    r.push(Currency::USD);
    r.push(Currency::GBP);
    r.push(Currency::SGD);
    r.push(Currency::IDR);
    proof {
        assert(r@ =~= seq![Currency::USD, Currency::GBP, Currency::SGD, Currency::IDR]);
    }
    r
}

/// Converting a fiat amount to satoshi and back returns at most the original
/// amount, and falls short of it by less than one cent plus the fiat value of
/// one satoshi: the round trip loses no more than the two truncations.
pub proof fn lemma_fiat_round_trip(cents: int, c: Currency)
    requires
        0 <= cents,
    ensures
        spec_satoshi_to_fiat(spec_fiat_to_satoshi(cents, c), c) <= cents,
        (cents - spec_satoshi_to_fiat(spec_fiat_to_satoshi(cents, c), c))
            * (SATOSHI_PER_BTC as int)
            < (SATOSHI_PER_BTC as int) + spec_rate(c) * (CENTS_PER_WHOLE as int),
{
    let s_per_btc = SATOSHI_PER_BTC as int;
    let cents_per_btc = spec_rate(c) * (CENTS_PER_WHOLE as int);
    let sat = spec_fiat_to_satoshi(cents, c);
    let back = spec_satoshi_to_fiat(sat, c);
    assert(cents_per_btc > 0);
    // cents * s_per_btc = sat * cents_per_btc + a, with 0 <= a < cents_per_btc
    lemma_fundamental_div_mod(cents * s_per_btc, cents_per_btc);
    lemma_mod_division_less_than_divisor(cents * s_per_btc, cents_per_btc);
    let a = (cents * s_per_btc) % cents_per_btc;
    // sat * cents_per_btc = back * s_per_btc + b, with 0 <= b < s_per_btc
    assert(sat * spec_rate(c) * (CENTS_PER_WHOLE as int) == sat * cents_per_btc) by {
        vstd::arithmetic::mul::lemma_mul_is_associative(sat, spec_rate(c),
            CENTS_PER_WHOLE as int);
    }
    lemma_fundamental_div_mod(sat * cents_per_btc, s_per_btc);
    lemma_mod_division_less_than_divisor(sat * cents_per_btc, s_per_btc);
    let b = (sat * cents_per_btc) % s_per_btc;
    assert(cents * s_per_btc == back * s_per_btc + a + b);
    assert((cents - back) * s_per_btc == a + b) by {
        vstd::arithmetic::mul::lemma_mul_is_distributive_sub_other_way(s_per_btc, cents, back);
    }
    assert(back <= cents) by {
        if back > cents {
            lemma_mul_inequality(back - cents, 1, s_per_btc);
        }
    }
}

} // verus!
