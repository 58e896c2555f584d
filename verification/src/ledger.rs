//! Per-merchant ledger accounts and the single choke point through which
//! every balance mutation passes.

use vstd::prelude::*;
use crate::currency::Currency;
use crate::errors::IrisError;
use crate::store::{Keyed, KeyedVec};

verus! {

/// A merchant's running balances, all in satoshi and all non-negative by
/// construction: `pending_satoshi` for amounts observed but not yet
/// complete, `confirmed_satoshi` for amounts available to cash out, and
/// `total_satoshi` for the cumulative completed amount net of cashouts.
#[derive(Debug)]
pub struct MerchantBalance {
    pub merchant_id: String,
    pub total_satoshi: u64,
    pub pending_satoshi: u64,
    pub confirmed_satoshi: u64,
    pub preferred_currency: Currency,
    pub last_updated: u64,
}

impl Clone for MerchantBalance {
    fn clone(&self) -> (r: Self)
        ensures
            r == *self,
    {
        MerchantBalance {
            merchant_id: self.merchant_id.clone(),
            total_satoshi: self.total_satoshi,
            pending_satoshi: self.pending_satoshi,
            confirmed_satoshi: self.confirmed_satoshi,
            preferred_currency: self.preferred_currency,
            last_updated: self.last_updated,
        }
    }
}

impl Keyed for MerchantBalance {
    open spec fn key(&self) -> Seq<char> {
        self.merchant_id@
    }

    fn key_eq(&self, key: &String) -> (r: bool)
        ensures
            r == (self.key() == key@),
    {
        self.merchant_id == *key
    }
}

/// The account a merchant starts with: everything zero, preferring USD.
pub open spec fn spec_zero_account(merchant_id: String, now: u64) -> MerchantBalance {
    MerchantBalance {
        merchant_id,
        total_satoshi: 0,
        pending_satoshi: 0,
        confirmed_satoshi: 0,
        preferred_currency: Currency::USD,
        last_updated: now,
    }
}

/// The account the deltas of an `adjust` apply to: the stored one, or a
/// fresh zeroed one when the merchant has no account yet.
pub open spec fn spec_base_account(
    stored: Option<MerchantBalance>,
    merchant_id: String,
    now: u64,
) -> MerchantBalance {
    match stored {
        Some(b) => b,
        None => spec_zero_account(merchant_id, now),
    }
}

/// Whether all three deltas keep their fields at or above zero.
pub open spec fn spec_deltas_nonnegative(
    base: MerchantBalance,
    delta_pending: int,
    delta_confirmed: int,
    delta_total: int,
) -> bool {
    &&& base.pending_satoshi + delta_pending >= 0
    &&& base.confirmed_satoshi + delta_confirmed >= 0
    &&& base.total_satoshi + delta_total >= 0
}

/// Whether all three deltas keep their fields within `u64`.
pub open spec fn spec_deltas_fit(
    base: MerchantBalance,
    delta_pending: int,
    delta_confirmed: int,
    delta_total: int,
) -> bool {
    &&& base.pending_satoshi + delta_pending <= u64::MAX
    &&& base.confirmed_satoshi + delta_confirmed <= u64::MAX
    &&& base.total_satoshi + delta_total <= u64::MAX
}

/// The account an accepted `adjust` leaves behind.
pub open spec fn spec_adjusted_account(
    base: MerchantBalance,
    merchant_id: String,
    delta_pending: int,
    delta_confirmed: int,
    delta_total: int,
    now: u64,
) -> MerchantBalance {
    MerchantBalance {
        merchant_id,
        pending_satoshi: (base.pending_satoshi + delta_pending) as u64,
        confirmed_satoshi: (base.confirmed_satoshi + delta_confirmed) as u64,
        total_satoshi: (base.total_satoshi + delta_total) as u64,
        preferred_currency: base.preferred_currency,
        last_updated: now,
    }
}

/// The keyed store of merchant ledger accounts.
pub struct LedgerStore {
    pub accounts: KeyedVec<MerchantBalance>,
}

impl LedgerStore {
    /// Keys are pairwise distinct.
    pub open spec fn wf(self) -> bool {
        self.accounts.wf()
    }

    /// The account of merchant `m`, if one exists.
    pub open spec fn spec_get(self, m: Seq<char>) -> Option<MerchantBalance> {
        self.accounts.spec_get(m)
    }

    /// Whether merchant `m` has an account.
    pub open spec fn contains(self, m: Seq<char>) -> bool {
        self.accounts.contains_key(m)
    }

    /// An empty ledger.
    pub fn new() -> (r: Self)
        ensures
            r.wf(),
            r.accounts.items@ == Seq::<MerchantBalance>::empty(),
            forall|k: Seq<char>| r.spec_get(k) is None,
    {
        LedgerStore { accounts: KeyedVec::new() }
    }

    /// Returns the merchant's account, creating a zeroed one on first
    /// access; never fails.
    pub fn get_or_create(&mut self, merchant_id: &String, now: u64) -> (r: MerchantBalance)
        requires
            old(self).wf(),
        ensures
            final(self).wf(),
            final(self).spec_get(merchant_id@) == Some(r),
            old(self).spec_get(merchant_id@) matches Some(b) ==> r == b
                && final(self).accounts.items@ == old(self).accounts.items@,
            old(self).spec_get(merchant_id@) is None ==> r == spec_zero_account(
                *merchant_id,
                now,
            ) && final(self).accounts.items@ == old(self).accounts.items@.push(r),
            forall|k: Seq<char>|
                k != merchant_id@ ==> final(self).spec_get(k) == old(self).spec_get(k),
    {
        match self.accounts.index_of(merchant_id) {
            Some(i) => self.accounts.items[i].clone(),
            None => {
                let acc = MerchantBalance {
                    merchant_id: merchant_id.clone(),
                    total_satoshi: 0,
                    pending_satoshi: 0,
                    confirmed_satoshi: 0,
                    preferred_currency: Currency::USD,
                    last_updated: now,
                };
                let copy = acc.clone();
                self.accounts.push_item(acc);
                copy
            },
        }
    }

    /// Applies the three deltas to the merchant's account as one atomic
    /// step, creating the account first when absent.  Fails with
    /// `NegativeBalance` when any field would drop below zero, and with
    /// `InternalError` when any field would exceed `u64`; on failure the
    /// whole store is left exactly as it was.
    pub fn adjust(
        &mut self,
        merchant_id: &String,
        delta_pending: i64,
        delta_confirmed: i64,
        delta_total: i64,
        now: u64,
    ) -> (r: Result<(), IrisError>)
        requires
            old(self).wf(),
        ensures
            final(self).wf(),
            ({
                let base = spec_base_account(old(self).spec_get(merchant_id@), *merchant_id,
                    now);
                &&& (r is Ok <==> spec_deltas_nonnegative(base, delta_pending as int,
                    delta_confirmed as int, delta_total as int) && spec_deltas_fit(base,
                    delta_pending as int, delta_confirmed as int, delta_total as int))
                &&& (!spec_deltas_nonnegative(base, delta_pending as int, delta_confirmed as int,
                    delta_total as int) ==> r == Err::<(), IrisError>(
                    IrisError::NegativeBalance,
                ))
                &&& (spec_deltas_nonnegative(base, delta_pending as int, delta_confirmed as int,
                    delta_total as int) && !spec_deltas_fit(base, delta_pending as int,
                    delta_confirmed as int, delta_total as int) ==> r == Err::<(), IrisError>(
                    IrisError::InternalError,
                ))
                &&& (r is Err ==> (final(self).accounts.items@ == old(self).accounts.items@
                    && (r == Err::<(), IrisError>(IrisError::NegativeBalance) || r == Err::<
                    (),
                    IrisError,
                >(IrisError::InternalError))))
                &&& (r is Ok ==> final(self).spec_get(merchant_id@) == Some(
                    spec_adjusted_account(base, *merchant_id, delta_pending as int,
                        delta_confirmed as int, delta_total as int, now),
                ))
            }),
            forall|k: Seq<char>|
                k != merchant_id@ ==> final(self).spec_get(k) == old(self).spec_get(k),
    {
        let idx = self.accounts.index_of(merchant_id);
        let base = match idx {
            Some(i) => self.accounts.items[i].clone(),
            None => MerchantBalance {
                merchant_id: merchant_id.clone(),
                total_satoshi: 0,
                pending_satoshi: 0,
                confirmed_satoshi: 0,
                preferred_currency: Currency::USD,
                last_updated: now,
            },
        };
        let new_pending: i128 = base.pending_satoshi as i128 + delta_pending as i128;
        let new_confirmed: i128 = base.confirmed_satoshi as i128 + delta_confirmed as i128;
        let new_total: i128 = base.total_satoshi as i128 + delta_total as i128;
        if new_pending < 0 || new_confirmed < 0 || new_total < 0 {
            return Err(IrisError::NegativeBalance);
        }
        if new_pending > u64::MAX as i128 || new_confirmed > u64::MAX as i128 || new_total
            > u64::MAX as i128 {
            return Err(IrisError::InternalError);
        }
        let updated = MerchantBalance {
            merchant_id: merchant_id.clone(),
            pending_satoshi: new_pending as u64,
            confirmed_satoshi: new_confirmed as u64,
            total_satoshi: new_total as u64,
            preferred_currency: base.preferred_currency,
            last_updated: now,
        };
        match idx {
            Some(i) => self.accounts.set_item(i, updated),
            None => self.accounts.push_item(updated),
        }
        Ok(())
    }

    /// Points the merchant's account at a new preferred currency; a
    /// merchant without an account is left without one.
    pub fn set_preferred_currency(&mut self, merchant_id: &String, currency: Currency, now: u64)
        requires
            old(self).wf(),
        ensures
            final(self).wf(),
            old(self).spec_get(merchant_id@) matches Some(b) ==> final(self).spec_get(
                merchant_id@,
            ) == Some(MerchantBalance { preferred_currency: currency, last_updated: now, ..b }),
            old(self).spec_get(merchant_id@) is None ==> final(self).accounts.items@ == old(
                self,
            ).accounts.items@,
            forall|k: Seq<char>|
                k != merchant_id@ ==> final(self).spec_get(k) == old(self).spec_get(k),
    {
        match self.accounts.index_of(merchant_id) {
            Some(i) => {
                let mut acc = self.accounts.items[i].clone();
                acc.preferred_currency = currency;
                acc.last_updated = now;
                self.accounts.set_item(i, acc);
            },
            None => {},
        }
    }

    /// The merchant's balances; `NotFound` when no balance-affecting event
    /// has created an account yet.
    pub fn get_merchant_balance(&self, merchant_id: &String) -> (r: Result<
        MerchantBalance,
        IrisError,
    >)
        requires
            self.wf(),
        ensures
            r matches Ok(b) ==> self.spec_get(merchant_id@) == Some(b),
            r is Err <==> !self.contains(merchant_id@),
            r is Err ==> r == Err::<MerchantBalance, _>(IrisError::NotFound),
    {
        match self.accounts.get(merchant_id) {
            Some(acc) => Ok(acc.clone()),
            None => Err(IrisError::NotFound),
        }
    }
}

/// Ledger balances can never be negative: every field of every stored
/// account is an unsigned integer, every mutation passes through `adjust`,
/// and `adjust` either applies all three deltas within bounds or leaves the
/// store untouched.  In particular the pending and confirmed segments, and
/// their sum, stay at or above zero after any sequence of operations.
pub proof fn lemma_ledger_nonnegative(ledger: LedgerStore, m: Seq<char>)
    ensures
        ledger.spec_get(m) matches Some(b) ==> 0 <= b.pending_satoshi && 0 <= b.confirmed_satoshi
            && 0 <= b.total_satoshi && 0 <= b.pending_satoshi + b.confirmed_satoshi,
{
}

} // verus!
