//! Invoices and the status state machine that governs them.

use vstd::prelude::*;
use crate::constants::MAX_SATOSHI_SUPPLY;
use crate::currency::{spec_satoshi_to_fiat, Currency, ExchangeService};
use crate::decimal::{
    btc_amount_string, cents_amount_string, spec_btc_amount, spec_cents_amount, spec_padded,
    u64_padded,
};
use crate::enums::{valid_transition, PaymentStatus};
use crate::errors::IrisError;
use crate::merchant::{MerchantProfile, MerchantStore};
use crate::store::{Keyed, KeyedVec};

verus! {

/// A merchant-issued payment request.  `amount_satoshi`, `bitcoin_address`,
/// `fiat_amount` (cents) and `currency` are fixed at creation; only `status`
/// and `updated_at` change afterwards, and only through `update_status`.
#[derive(Debug)]
pub struct Invoice {
    pub id: String,
    pub merchant_id: String,
    pub amount_satoshi: u64,
    pub bitcoin_address: String,
    pub status: PaymentStatus,
    pub created_at: u64,
    pub updated_at: u64,
    pub description: Option<String>,
    pub currency: Currency,
    pub fiat_amount: u64,
}

impl Clone for Invoice {
    fn clone(&self) -> (r: Self)
        ensures
            r == *self,
    {
        Invoice {
            id: self.id.clone(),
            merchant_id: self.merchant_id.clone(),
            amount_satoshi: self.amount_satoshi,
            bitcoin_address: self.bitcoin_address.clone(),
            status: self.status,
            created_at: self.created_at,
            updated_at: self.updated_at,
            description: match &self.description {
                Some(d) => Some(d.clone()),
                None => None,
            },
            currency: self.currency,
            fiat_amount: self.fiat_amount,
        }
    }
}

impl Invoice {
    /// The record-level invariant: the last update is not before creation,
    /// and the amount stays within the settlement currency's supply.
    pub open spec fn wf(self) -> bool {
        &&& self.created_at <= self.updated_at
        &&& self.amount_satoshi <= MAX_SATOSHI_SUPPLY
    }

    /// Builds a fresh `Pending` invoice; `updated_at` starts at `created_at`.
    pub fn new(
        id: String,
        merchant_id: String,
        amount_satoshi: u64,
        bitcoin_address: String,
        created_at: u64,
        description: Option<String>,
        currency: Currency,
        fiat_amount: u64,
    ) -> (r: Self)
        requires
            amount_satoshi <= MAX_SATOSHI_SUPPLY,
        ensures
            r == (Invoice {
                id,
                merchant_id,
                amount_satoshi,
                bitcoin_address,
                status: PaymentStatus::Pending,
                created_at,
                updated_at: created_at,
                description,
                currency,
                fiat_amount,
            }),
            r.wf(),
    {
        Invoice {
            id,
            merchant_id,
            amount_satoshi,
            bitcoin_address,
            status: PaymentStatus::Pending,
            created_at,
            updated_at: created_at,
            description,
            currency,
            fiat_amount,
        }
    }

    /// The amount in whole coins, rendered as a decimal string.
    pub fn amount_btc(&self) -> (r: String)
        ensures
            r@ == spec_btc_amount(self.amount_satoshi as nat),
    {
        btc_amount_string(self.amount_satoshi)
    }

    /// Applies a status transition.  Exactly the four edges of the status
    /// graph succeed; everything else, including repeating the current
    /// status, returns `InvalidTransition` and leaves the invoice untouched.
    /// On success the previous and the new status are returned together, so
    /// a caller can tell which ledger-affecting edge was crossed.
    pub fn update_status(&mut self, status: PaymentStatus, timestamp: u64) -> (r: Result<
        (PaymentStatus, PaymentStatus),
        IrisError,
    >)
        requires
            old(self).updated_at <= timestamp,
        ensures
            r is Ok <==> valid_transition(old(self).status, status),
            r is Ok ==> r == Ok::<_, IrisError>((old(self).status, status)),
            r is Ok ==> *final(self) == (Invoice {
                status,
                updated_at: timestamp,
                ..*old(self)
            }),
            r is Err ==> r == Err::<(PaymentStatus, PaymentStatus), _>(
                IrisError::InvalidTransition,
            ) && *final(self) == *old(self),
            old(self).wf() ==> final(self).wf(),
    {
        if self.status.can_transition_to(status) {
            let previous = self.status;
            self.status = status;
            self.updated_at = timestamp;
            Ok((previous, status))
        } else {
            Err(IrisError::InvalidTransition)
        }
    }
}

/// A request to create an invoice; the fiat amount is in cents.
#[derive(Debug)]
pub struct CreateInvoiceRequest {
    pub merchant_id: String,
    pub fiat_amount: u64,
    pub currency: Currency,
    pub description: Option<String>,
}

/// The sequence of invoices whose `merchant_id` reads `m`, in order.
pub open spec fn spec_filter_merchant(s: Seq<Invoice>, m: Seq<char>) -> Seq<Invoice>
    decreases s.len(),
{
    if s.len() == 0 {
        Seq::<Invoice>::empty()
    } else {
        spec_filter_merchant(s.drop_last(), m) + if s.last().merchant_id@ == m {
            seq![s.last()]
        } else {
            Seq::<Invoice>::empty()
        }
    }
}

/// The identifier assigned to the invoice created under counter value
/// `counter`.
pub open spec fn spec_invoice_id(counter: nat) -> Seq<char> {
    "INV-"@ + spec_padded(counter, 6)
}

/// The display line describing an invoice for payment.
pub open spec fn spec_payment_info(inv: Invoice) -> Seq<char> {
    "Invoice: "@ + inv.id@ + " | Amount: "@ + spec_btc_amount(inv.amount_satoshi as nat)
        + " BTC ("@ + spec_cents_amount(spec_satoshi_to_fiat(inv.amount_satoshi as int,
        Currency::USD) as nat) + " USD) | Address: "@ + inv.bitcoin_address@ + " | Status: "@
        + inv.status.name_spec()
}

/// Stateless invoice helpers.
pub struct InvoiceService;

impl InvoiceService {
    /// Formats the sequential invoice identifier.
    pub fn generate_invoice_id(counter: u64) -> (r: String)
        ensures
            r@ == spec_invoice_id(counter as nat),
    {
        let mut s = String::from_str("INV-");
        let tail = u64_padded(counter, 6);
        s.append(tail.as_str());
        s
    }

    /// Reports the stored payment state of an invoice; gathering fresh
    /// evidence and acting on it is the reconciler's task.
    pub fn check_invoice_payment(invoice: &Invoice) -> (r: Result<PaymentStatus, IrisError>)
        ensures
            r == Ok::<_, IrisError>(invoice.status),
    {
        Ok(invoice.status)
    }

    /// The invoices belonging to one merchant, in stored order.
    pub fn filter_merchant_invoices(all_invoices: &Vec<Invoice>, merchant_id: &String) -> (r: Vec<
        Invoice,
    >)
        ensures
            r@ == spec_filter_merchant(all_invoices@, merchant_id@),
    {
        let mut r: Vec<Invoice> = Vec::new();
        let mut i: usize = 0;
        while i < all_invoices.len()
            invariant
                i <= all_invoices@.len(),
                r@ == spec_filter_merchant(all_invoices@.take(i as int), merchant_id@),
            decreases all_invoices@.len() - i,
        {
            let inv = &all_invoices[i];
            if inv.merchant_id == *merchant_id {
                r.push(inv.clone());
            }
            proof {
                let taken = all_invoices@.take(i + 1);
                assert(taken.drop_last() =~= all_invoices@.take(i as int));
                assert(taken.last() == all_invoices@[i as int]);
                assert(r@ == spec_filter_merchant(all_invoices@.take(i + 1), merchant_id@));
            }
            i = i + 1;
        }
        proof {
            assert(all_invoices@.take(all_invoices@.len() as int) =~= all_invoices@);
        }
        r
    }

    /// Builds the display line for an invoice, quoting the amount both in
    /// whole coins and in USD cents at the fixed rate.
    pub fn payment_info(invoice: &Invoice) -> (r: String)
        requires
            invoice.amount_satoshi <= MAX_SATOSHI_SUPPLY,
        ensures
            r@ == spec_payment_info(*invoice),
    {
        let usd_cents = ExchangeService::satoshi_to_fiat(invoice.amount_satoshi, &Currency::USD);
        let mut s = String::from_str("Invoice: ");
        s.append(invoice.id.as_str());
        s.append(" | Amount: ");
        let btc = btc_amount_string(invoice.amount_satoshi);
        s.append(btc.as_str());
        s.append(" BTC (");
        let usd = cents_amount_string(usd_cents);
        s.append(usd.as_str());
        s.append(" USD) | Address: ");
        s.append(invoice.bitcoin_address.as_str());
        s.append(" | Status: ");
        let name = invoice.status.name();
        s.append(name.as_str());
        proof {
            assert(s@ =~= spec_payment_info(*invoice));
        }
        s
    }
}

impl Keyed for Invoice {
    open spec fn key(&self) -> Seq<char> {
        self.id@
    }

    fn key_eq(&self, key: &String) -> (r: bool)
        ensures
            r == (self.key() == key@),
    {
        self.id == *key
    }
}

/// Distinct counter values yield distinct invoice identifiers.
pub proof fn lemma_invoice_id_injective(a: nat, b: nat)
    requires
        a != b,
        a >= 1,
        b >= 1,
    ensures
        spec_invoice_id(a) != spec_invoice_id(b),
{
    crate::decimal::lemma_padded_injective(a, b, 6);
    if spec_invoice_id(a) == spec_invoice_id(b) {
        let prefix = "INV-"@;
        let pa = spec_padded(a, 6);
        let pb = spec_padded(b, 6);
        assert(spec_invoice_id(a) == prefix + pa);
        assert(spec_invoice_id(b) == prefix + pb);
        assert((prefix + pa).len() == prefix.len() + pa.len());
        assert((prefix + pb).len() == prefix.len() + pb.len());
        assert(pa.len() == pb.len());
        assert(pa =~= pb) by {
            assert forall|i: int| 0 <= i < pa.len() implies pa[i] == pb[i] by {
                assert(pa[i] == (prefix + pa)[prefix.len() + i]);
                assert(pb[i] == (prefix + pb)[prefix.len() + i]);
            }
        }
    }
}

/// The invoice carries an identifier assigned under some counter value at
/// most `c`.
pub open spec fn has_assigned_id(inv: Invoice, c: nat) -> bool {
    exists|k: nat| 1 <= k <= c && inv.id@ == spec_invoice_id(k)
}

/// The keyed store of invoices, together with the counter that mints their
/// sequential identifiers.
pub struct InvoiceStore {
    pub invoices: KeyedVec<Invoice>,
    pub counter: u64,
}

impl InvoiceStore {
    /// Identifiers are pairwise distinct, each was minted by the counter,
    /// and every stored invoice is well-formed.
    pub open spec fn wf(self) -> bool {
        &&& self.invoices.wf()
        &&& forall|i: int|
            0 <= i < self.invoices.items@.len() ==> (#[trigger] self.invoices.items@[i]).wf()
                && has_assigned_id(self.invoices.items@[i], self.counter as nat)
    }

    /// The invoice carrying identifier `id`, if any.
    pub open spec fn spec_get(self, id: Seq<char>) -> Option<Invoice> {
        self.invoices.spec_get(id)
    }

    /// Whether identifier `id` is in use.
    pub open spec fn contains(self, id: Seq<char>) -> bool {
        self.invoices.contains_key(id)
    }

    /// An empty store; identifiers start at `INV-000001`.
    pub fn new() -> (r: Self)
        ensures
            r.wf(),
            r.invoices.items@ == Seq::<Invoice>::empty(),
            r.counter == 0,
            forall|k: Seq<char>| r.spec_get(k) is None,
    {
        InvoiceStore { invoices: KeyedVec::new(), counter: 0 }
    }

    /// The invoice with identifier `invoice_id`, exposed only to the
    /// merchant that owns it.
    pub fn get_invoice(&self, invoice_id: &String, caller_id: &String) -> (r: Result<
        Invoice,
        IrisError,
    >)
        requires
            self.wf(),
        ensures
            self.spec_get(invoice_id@) is None ==> r == Err::<Invoice, _>(IrisError::NotFound),
            self.spec_get(invoice_id@) matches Some(inv) ==> if inv.merchant_id@ == caller_id@ {
                r == Ok::<_, IrisError>(inv)
            } else {
                r == Err::<Invoice, _>(IrisError::Unauthorized)
            },
    {
        match self.invoices.get(invoice_id) {
            None => Err(IrisError::NotFound),
            Some(inv) => {
                if inv.merchant_id == *caller_id {
                    Ok(inv.clone())
                } else {
                    Err(IrisError::Unauthorized)
                }
            },
        }
    }

    /// The invoice with identifier `invoice_id`, with no ownership check:
    /// anyone scanning its QR code may look at it.
    pub fn get_invoice_by_qr_scan(&self, invoice_id: &String) -> (r: Result<Invoice, IrisError>)
        requires
            self.wf(),
        ensures
            self.spec_get(invoice_id@) is None ==> r == Err::<Invoice, _>(IrisError::NotFound),
            self.spec_get(invoice_id@) matches Some(inv) ==> r == Ok::<_, IrisError>(inv),
    {
        match self.invoices.get(invoice_id) {
            None => Err(IrisError::NotFound),
            Some(inv) => Ok(inv.clone()),
        }
    }

    /// The stored payment status of an invoice.
    pub fn check_invoice_status(&self, invoice_id: &String) -> (r: Result<
        PaymentStatus,
        IrisError,
    >)
        requires
            self.wf(),
        ensures
            self.spec_get(invoice_id@) is None ==> r == Err::<PaymentStatus, _>(
                IrisError::NotFound,
            ),
            self.spec_get(invoice_id@) matches Some(inv) ==> r == Ok::<_, IrisError>(inv.status),
    {
        match self.invoices.get(invoice_id) {
            None => Err(IrisError::NotFound),
            Some(inv) => Ok(inv.status),
        }
    }

    /// The invoices belonging to `merchant_id`, in stored order.
    pub fn get_my_invoices(&self, merchant_id: &String) -> (r: Vec<Invoice>)
        ensures
            r@ == spec_filter_merchant(self.invoices.items@, merchant_id@),
    {
        InvoiceService::filter_merchant_invoices(&self.invoices.items, merchant_id)
    }

    /// The display line for an invoice.
    pub fn get_invoice_payment_info(&self, invoice_id: &String) -> (r: Result<String, IrisError>)
        requires
            self.wf(),
        ensures
            self.spec_get(invoice_id@) is None ==> r == Err::<String, _>(IrisError::NotFound),
            self.spec_get(invoice_id@) matches Some(inv) ==> r matches Ok(s) && s@
                == spec_payment_info(inv),
    {
        match self.invoices.get(invoice_id) {
            None => Err(IrisError::NotFound),
            Some(inv) => Ok(InvoiceService::payment_info(inv)),
        }
    }

    /// Writes back an invoice that already exists under the same
    /// identifier.
    pub(crate) fn put(&mut self, index: usize, invoice: Invoice)
        requires
            old(self).wf(),
            index < old(self).invoices.items@.len(),
            old(self).invoices.items@[index as int].id@ == invoice.id@,
            invoice.wf(),
            has_assigned_id(invoice, old(self).counter as nat),
        ensures
            final(self).wf(),
            final(self).counter == old(self).counter,
            final(self).invoices.items@ == old(self).invoices.items@.update(
                index as int,
                invoice,
            ),
            final(self).spec_get(invoice.id@) == Some(invoice),
            forall|k: Seq<char>|
                k != invoice.id@ ==> final(self).spec_get(k) == old(self).spec_get(k),
    {
        self.invoices.set_item(index, invoice);
    }
}

/// Creates an invoice: the merchant must be registered and the fiat amount
/// valid; the amount is converted at the fixed rate, the invoice is stored
/// as `Pending` under the next sequential identifier against the
/// merchant's stable address, and the merchant's invoice tally grows by
/// one.
pub fn create_invoice(
    invoices: &mut InvoiceStore,
    merchants: &mut MerchantStore,
    merchant_id: &String,
    fiat_cents: u64,
    currency: Currency,
    description: Option<String>,
    now: u64,
) -> (r: Result<Invoice, IrisError>)
    requires
        old(invoices).wf(),
        old(merchants).wf(),
        old(invoices).counter < u64::MAX,
        old(merchants).spec_get(merchant_id@) matches Some(p) ==> p.total_invoices < u64::MAX,
    ensures
        final(invoices).wf(),
        final(merchants).wf(),
        r is Ok <==> old(merchants).contains(merchant_id@) && 0 < fiat_cents
            <= crate::constants::MAX_FIAT_CENTS,
        !old(merchants).contains(merchant_id@) ==> r == Err::<Invoice, _>(IrisError::NotFound),
        old(merchants).contains(merchant_id@) && !(0 < fiat_cents
            <= crate::constants::MAX_FIAT_CENTS) ==> r == Err::<Invoice, _>(
            IrisError::InvalidInput,
        ),
        r is Err ==> final(invoices).invoices.items@ == old(invoices).invoices.items@
            && final(invoices).counter == old(invoices).counter
            && final(merchants).profiles.items@ == old(merchants).profiles.items@,
        r matches Ok(inv) ==> ({
            let p = old(merchants).spec_get(merchant_id@)->Some_0;
            &&& inv.id@ == spec_invoice_id((old(invoices).counter + 1) as nat)
            &&& inv.merchant_id == *merchant_id
            &&& inv.amount_satoshi == crate::currency::spec_fiat_to_satoshi(
                fiat_cents as int,
                currency,
            )
            &&& inv.bitcoin_address == p.static_bitcoin_address
            &&& inv.status is Pending
            &&& inv.created_at == now
            &&& inv.updated_at == now
            &&& inv.description == description
            &&& inv.currency == currency
            &&& inv.fiat_amount == fiat_cents
            &&& final(invoices).counter == old(invoices).counter + 1
            &&& final(invoices).invoices.items@ == old(invoices).invoices.items@.push(inv)
            &&& final(invoices).spec_get(inv.id@) == Some(inv)
            &&& final(merchants).spec_get(merchant_id@) == Some(
                MerchantProfile { total_invoices: (p.total_invoices + 1) as u64, ..p },
            )
        }),
        forall|k: Seq<char>|
            k != merchant_id@ ==> final(merchants).spec_get(k) == old(merchants).spec_get(k),
{
    let profile = match merchants.get_merchant_profile(merchant_id) {
        Ok(p) => p,
        Err(_) => {
            return Err(IrisError::NotFound);
        },
    };
    match crate::validation::ValidationUtils::validate_fiat_amount(fiat_cents) {
        Err(e) => {
            return Err(e);
        },
        Ok(_) => {},
    }
    let counter = invoices.counter + 1;
    invoices.counter = counter;
    let invoice_id = InvoiceService::generate_invoice_id(counter);
    let amount_satoshi = ExchangeService::fiat_to_satoshi(fiat_cents, &currency);
    let invoice = Invoice::new(
        invoice_id,
        merchant_id.clone(),
        amount_satoshi,
        profile.static_bitcoin_address,
        now,
        description,
        currency,
        fiat_cents,
    );
    proof {
        assert forall|i: int| 0 <= i < invoices.invoices.items@.len() implies (
        #[trigger] invoices.invoices.items@[i]).wf() && has_assigned_id(
            invoices.invoices.items@[i],
            counter as nat,
        ) by {
            let k = choose|k: nat|
                1 <= k <= old(invoices).counter as nat && invoices.invoices.items@[i].id@
                    == spec_invoice_id(k);
            assert(1 <= k <= counter as nat && invoices.invoices.items@[i].id@
                == spec_invoice_id(k));
        }
        assert(!invoices.contains(invoice.id@)) by {
            if invoices.contains(invoice.id@) {
                let i = choose|i: int|
                    0 <= i < invoices.invoices.items@.len() && (#[trigger] invoices.invoices.items@[i].key())
                        == invoice.id@;
                assert(has_assigned_id(old(invoices).invoices.items@[i],
                    old(invoices).counter as nat));
                let j = choose|j: nat|
                    1 <= j <= old(invoices).counter as nat && old(invoices).invoices.items@[i].id@
                        == spec_invoice_id(j);
                lemma_invoice_id_injective(j, counter as nat);
            }
        }
        assert(has_assigned_id(invoice, counter as nat)) by {
            assert(1 <= counter as nat <= counter as nat && invoice.id@ == spec_invoice_id(
                counter as nat,
            ));
        }
    }
    let result = invoice.clone();
    invoices.invoices.push_item(invoice);
    merchants.increment_invoices(merchant_id);
    Ok(result)
}

} // verus!
