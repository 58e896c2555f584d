//! Core logic of a merchant payment backend: invoices denominated in fiat
//! currency are converted to an integer amount of the settlement currency's
//! smallest unit, tracked through a payment-status state machine, and
//! reconciled against per-merchant ledger accounts that cashout requests
//! debit.  All amounts are integers: satoshi for on-chain value, cents for
//! fiat value; the process boundary converts display floats outside this
//! crate.

pub mod bitcoin;
pub mod cashout;
pub mod constants;
pub mod currency;
pub mod decimal;
pub mod enums;
pub mod errors;
pub mod invoice;
pub mod ledger;
pub mod merchant;
pub mod payment;
pub mod qr;
pub mod store;
pub mod types;
pub mod user;
pub mod validation;
