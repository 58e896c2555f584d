//! Cashout requests: converting confirmed balance into a fiat payout.

use vstd::prelude::*;
use crate::constants::MAX_SATOSHI_SUPPLY;
use crate::currency::{spec_satoshi_to_fiat, Currency, ExchangeService};
use crate::decimal::{spec_padded, u64_padded};
use crate::enums::CashoutStatus;
use crate::errors::IrisError;
use crate::ledger::{spec_adjusted_account, LedgerStore, MerchantBalance};
use crate::store::{Keyed, KeyedVec};
use crate::validation::ValidationUtils;

verus! {

/// A merchant's request to pay out confirmed balance, recorded at the
/// moment the ledger was debited.
#[derive(Debug)]
pub struct CashoutRequest {
    pub id: String,
    pub merchant_id: String,
    pub amount_satoshi: u64,
    pub target_currency: Currency,
    pub fiat_amount: u64,
    pub status: CashoutStatus,
    pub created_at: u64,
    pub bank_details: Option<String>,
}

impl Clone for CashoutRequest {
    fn clone(&self) -> (r: Self)
        ensures
            r == *self,
    {
        CashoutRequest {
            id: self.id.clone(),
            merchant_id: self.merchant_id.clone(),
            amount_satoshi: self.amount_satoshi,
            target_currency: self.target_currency,
            fiat_amount: self.fiat_amount,
            status: self.status,
            created_at: self.created_at,
            bank_details: match &self.bank_details {
                Some(d) => Some(d.clone()),
                None => None,
            },
        }
    }
}

impl Keyed for CashoutRequest {
    open spec fn key(&self) -> Seq<char> {
        self.id@
    }

    fn key_eq(&self, key: &String) -> (r: bool)
        ensures
            r == (self.key() == key@),
    {
        self.id == *key
    }
}

/// A request to create a cashout.
#[derive(Debug)]
pub struct CreateCashoutRequest {
    pub amount_satoshi: u64,
    pub target_currency: Currency,
    pub bank_details: Option<String>,
}

/// A request to register a merchant.
#[derive(Debug)]
pub struct CreateMerchantRequest {
    pub business_name: String,
}

/// The identifier assigned to the cashout created under counter value
/// `counter`.
pub open spec fn spec_cashout_id(counter: nat) -> Seq<char> {
    "CASH-"@ + spec_padded(counter, 6)
}

/// Distinct counter values yield distinct cashout identifiers.
pub proof fn lemma_cashout_id_injective(a: nat, b: nat)
    requires
        a != b,
        a >= 1,
        b >= 1,
    ensures
        spec_cashout_id(a) != spec_cashout_id(b),
{
    crate::decimal::lemma_padded_injective(a, b, 6);
    if spec_cashout_id(a) == spec_cashout_id(b) {
        let prefix = "CASH-"@;
        let pa = spec_padded(a, 6);
        let pb = spec_padded(b, 6);
        assert(spec_cashout_id(a) == prefix + pa);
        assert(spec_cashout_id(b) == prefix + pb);
        assert((prefix + pa).len() == prefix.len() + pa.len());
        assert((prefix + pb).len() == prefix.len() + pb.len());
        assert(pa.len() == pb.len());
        assert(pa =~= pb) by {
            assert forall|i: int| 0 <= i < pa.len() implies pa[i] == pb[i] by {
                assert(pa[i] == (prefix + pa)[prefix.len() + i]);
                assert(pb[i] == (prefix + pb)[prefix.len() + i]);
            }
        }
    }
}

/// The cashout carries an identifier assigned under some counter value at
/// most `c`.
pub open spec fn has_assigned_cashout_id(c: CashoutRequest, counter: nat) -> bool {
    exists|k: nat| 1 <= k <= counter && c.id@ == spec_cashout_id(k)
}

/// The cashouts belonging to merchant `m`, in stored order.
pub open spec fn spec_filter_cashouts(s: Seq<CashoutRequest>, m: Seq<char>) -> Seq<
    CashoutRequest,
>
    decreases s.len(),
{
    if s.len() == 0 {
        Seq::<CashoutRequest>::empty()
    } else {
        spec_filter_cashouts(s.drop_last(), m) + if s.last().merchant_id@ == m {
            seq![s.last()]
        } else {
            Seq::<CashoutRequest>::empty()
        }
    }
}

/// The keyed store of cashout requests, with the counter that mints their
/// identifiers.
pub struct CashoutProcessor {
    pub requests: KeyedVec<CashoutRequest>,
    pub counter: u64,
}

impl CashoutProcessor {
    /// Identifiers are pairwise distinct and each was minted by the
    /// counter.
    pub open spec fn wf(self) -> bool {
        &&& self.requests.wf()
        &&& forall|i: int|
            0 <= i < self.requests.items@.len() ==> has_assigned_cashout_id(
                #[trigger] self.requests.items@[i],
                self.counter as nat,
            )
    }

    /// The cashout carrying identifier `id`, if any.
    pub open spec fn spec_get(self, id: Seq<char>) -> Option<CashoutRequest> {
        self.requests.spec_get(id)
    }

    /// An empty store; identifiers start at `CASH-000001`.
    pub fn new() -> (r: Self)
        ensures
            r.wf(),
            r.requests.items@ == Seq::<CashoutRequest>::empty(),
            r.counter == 0,
    {
        CashoutProcessor { requests: KeyedVec::new(), counter: 0 }
    }

    /// Creates a cashout: the amount must be a valid satoshi amount, the
    /// merchant must have a ledger account whose confirmed balance covers
    /// it, and the debit of confirmed and total goes through
    /// `LedgerStore::adjust` as the one atomic step; the recorded request
    /// starts `Pending` and quotes the amount in the target currency at the
    /// fixed rate.  On any failure neither store changes.
    pub fn create_cashout_request(
        &mut self,
        ledger: &mut LedgerStore,
        merchant_id: &String,
        amount_satoshi: u64,
        target_currency: Currency,
        bank_details: Option<String>,
        now: u64,
    ) -> (r: Result<CashoutRequest, IrisError>)
        requires
            old(self).wf(),
            old(ledger).wf(),
            old(self).counter < u64::MAX,
        ensures
            final(self).wf(),
            final(ledger).wf(),
            ({
                let valid = 0 < amount_satoshi <= MAX_SATOSHI_SUPPLY;
                let stored = old(ledger).spec_get(merchant_id@);
                &&& r is Ok <==> valid && (stored matches Some(b) && b.confirmed_satoshi
                    >= amount_satoshi && b.total_satoshi >= amount_satoshi)
                &&& !valid ==> r == Err::<CashoutRequest, _>(IrisError::InvalidInput)
                &&& valid && stored is None ==> r == Err::<CashoutRequest, _>(
                    IrisError::NotFound,
                )
                &&& (stored matches Some(b) ==> valid ==> {
                    &&& b.confirmed_satoshi < amount_satoshi ==> r == Err::<CashoutRequest, _>(
                        IrisError::InsufficientBalance,
                    )
                    &&& b.confirmed_satoshi >= amount_satoshi && b.total_satoshi
                        < amount_satoshi ==> r == Err::<CashoutRequest, _>(
                        IrisError::NegativeBalance,
                    )
                    &&& b.confirmed_satoshi >= amount_satoshi && b.total_satoshi
                        >= amount_satoshi ==> ({
                        let c = r->Ok_0;
                        &&& c.id@ == spec_cashout_id((old(self).counter + 1) as nat)
                        &&& c.merchant_id == *merchant_id
                        &&& c.amount_satoshi == amount_satoshi
                        &&& c.target_currency == target_currency
                        &&& c.fiat_amount == spec_satoshi_to_fiat(
                            amount_satoshi as int,
                            target_currency,
                        )
                        &&& c.status is Pending
                        &&& c.created_at == now
                        &&& c.bank_details == bank_details
                        &&& final(self).counter == old(self).counter + 1
                        &&& final(self).requests.items@ == old(self).requests.items@.push(c)
                        &&& final(ledger).spec_get(merchant_id@) == Some(
                            spec_adjusted_account(b, *merchant_id, 0,
                                -(amount_satoshi as int), -(amount_satoshi as int), now),
                        )
                    })
                })
                &&& r is Err ==> final(self).requests.items@ == old(self).requests.items@
                    && final(self).counter == old(self).counter && final(ledger).accounts.items@ == old(ledger).accounts.items@
            }),
            forall|k: Seq<char>|
                k != merchant_id@ ==> final(ledger).spec_get(k) == old(ledger).spec_get(k),
    {
        match ValidationUtils::validate_satoshi_amount(amount_satoshi) {
            Err(e) => {
                return Err(e);
            },
            Ok(_) => {},
        }
        let balance = match ledger.get_merchant_balance(merchant_id) {
            Ok(b) => b,
            Err(e) => {
                return Err(e);
            },
        };
        if balance.confirmed_satoshi < amount_satoshi {
            return Err(IrisError::InsufficientBalance);
        }
        match ledger.adjust(
            merchant_id,
            0,
            -(amount_satoshi as i64),
            -(amount_satoshi as i64),
            now,
        ) {
            Err(_) => {
                return Err(IrisError::NegativeBalance);
            },
            Ok(_) => {},
        }
        let counter = self.counter + 1;
        self.counter = counter;
        let mut id = String::from_str("CASH-");
        let tail = u64_padded(counter, 6);
        id.append(tail.as_str());
        let fiat_amount = ExchangeService::satoshi_to_fiat(amount_satoshi, &target_currency);
        let request = CashoutRequest {
            id,
            merchant_id: merchant_id.clone(),
            amount_satoshi,
            target_currency,
            fiat_amount,
            status: CashoutStatus::Pending,
            created_at: now,
            bank_details,
        };
        proof {
            assert forall|i: int| 0 <= i < self.requests.items@.len() implies
                has_assigned_cashout_id(#[trigger] self.requests.items@[i], counter as nat) by {
                let k = choose|k: nat|
                    1 <= k <= old(self).counter as nat && self.requests.items@[i].id@
                        == spec_cashout_id(k);
                assert(1 <= k <= counter as nat && self.requests.items@[i].id@
                    == spec_cashout_id(k));
            }
            assert(!self.requests.contains_key(request.id@)) by {
                if self.requests.contains_key(request.id@) {
                    let i = choose|i: int|
                        0 <= i < self.requests.items@.len() && (#[trigger] self.requests.items@[
                            i
                        ].key()) == request.id@;
                    assert(has_assigned_cashout_id(old(self).requests.items@[i],
                        old(self).counter as nat));
                    let j = choose|j: nat|
                        1 <= j <= old(self).counter as nat && old(self).requests.items@[i].id@
                            == spec_cashout_id(j);
                    lemma_cashout_id_injective(j, counter as nat);
                }
            }
            assert(has_assigned_cashout_id(request, counter as nat)) by {
                assert(1 <= counter as nat <= counter as nat && request.id@ == spec_cashout_id(
                    counter as nat,
                ));
            }
        }
        let result = request.clone();
        self.requests.push_item(request);
        Ok(result)
    }

    /// The cashouts belonging to one merchant.  Only membership is
    /// promised to stay meaningful; callers must not rely on the order.
    pub fn get_my_cashout_requests(&self, merchant_id: &String) -> (r: Vec<CashoutRequest>)
        ensures
            r@ == spec_filter_cashouts(self.requests.items@, merchant_id@),
    {
        let mut r: Vec<CashoutRequest> = Vec::new();
        let mut i: usize = 0;
        while i < self.requests.items.len()
            invariant
                i <= self.requests.items@.len(),
                r@ == spec_filter_cashouts(self.requests.items@.take(i as int), merchant_id@),
            decreases self.requests.items@.len() - i,
        {
            let c = &self.requests.items[i];
            if c.merchant_id == *merchant_id {
                r.push(c.clone());
            }
            proof {
                let taken = self.requests.items@.take(i + 1);
                assert(taken.drop_last() =~= self.requests.items@.take(i as int));
                assert(taken.last() == self.requests.items@[i as int]);
            }
            i = i + 1;
        }
        proof {
            assert(self.requests.items@.take(self.requests.items@.len() as int)
                =~= self.requests.items@);
        }
        r
    }
}

} // verus!
