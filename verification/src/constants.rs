//! Fixed limits and units of the system.

use vstd::prelude::*;

verus! {

/// Number of smallest units (satoshi) in one whole settlement coin.
pub const SATOSHI_PER_BTC: u64 = 100_000_000;

/// Number of cents in one whole unit of any fiat currency.
pub const CENTS_PER_WHOLE: u64 = 100;

/// Largest fiat amount a request may carry, in cents (one million whole units).
pub const MAX_FIAT_CENTS: u64 = 100_000_000;

/// Total supply of the settlement currency, in whole coins.
pub const MAX_BTC_SUPPLY: u64 = 21_000_000;

/// Total supply of the settlement currency, in satoshi.
pub const MAX_SATOSHI_SUPPLY: u64 = 21_000_000 * 100_000_000;

/// Confirmations a payment needs before an invoice may complete.
pub const MIN_CONFIRMATIONS: u32 = 1;

/// Largest single cashout, in satoshi.
pub const MAX_CASHOUT_AMOUNT: u64 = 1000 * 100_000_000;

/// Longest accepted invoice description, in characters.
pub const MAX_INVOICE_DESCRIPTION_LENGTH: usize = 500;

/// Longest accepted business name, in characters.
pub const MAX_BUSINESS_NAME_LENGTH: usize = 100;

/// Shortest plausible address string.
pub const MIN_BITCOIN_ADDRESS_LENGTH: usize = 26;

/// Longest plausible address string.
pub const MAX_BITCOIN_ADDRESS_LENGTH: usize = 62;

/// Hours before an unpaid invoice may be treated as stale.
pub const INVOICE_EXPIRY_HOURS: u64 = 24;

} // verus!
