//! Payment reconciliation: observed payment evidence drives the invoice
//! status machine, and every crossed edge mutates the merchant's ledger
//! account through `LedgerStore::adjust` — nothing else ever does.

use vstd::prelude::*;
use crate::constants::{MAX_SATOSHI_SUPPLY, MIN_CONFIRMATIONS};
use crate::enums::PaymentStatus;
use crate::errors::IrisError;
use crate::invoice::{spec_invoice_id, Invoice, InvoiceStore};
use crate::store::{Keyed, KeyedVec};
use crate::ledger::{spec_adjusted_account, spec_base_account, spec_deltas_fit, LedgerStore};

verus! {

/// What the external confirmation source reported for an address: the value
/// sitting on it and how many confirmations the payment has.
#[derive(Clone, Copy, Debug, PartialEq, Eq, Structural)]
pub struct Observation {
    pub balance: u64,
    pub confirmation_count: u32,
}

/// The status the evidence supports: `Completed` once the observed balance
/// covers the invoice and has enough confirmations, `Confirmed` when the
/// balance covers it but confirmations are short, and otherwise whatever
/// the invoice already says.
pub open spec fn spec_candidate_status(
    current: PaymentStatus,
    amount: u64,
    obs: Observation,
) -> PaymentStatus {
    if obs.balance >= amount && obs.confirmation_count >= MIN_CONFIRMATIONS {
        PaymentStatus::Completed
    } else if obs.balance >= amount {
        PaymentStatus::Confirmed
    } else {
        current
    }
}

/// Whether `reconcile` can move `current` to `candidate` along legal edges.
pub open spec fn spec_reconcile_applies(
    current: PaymentStatus,
    candidate: PaymentStatus,
) -> bool {
    ||| current is Pending && (candidate is Confirmed || candidate is Completed)
    ||| current is Confirmed && candidate is Completed
}

/// The combined ledger deltas of the edges crossed from `current` to
/// `candidate`: entering `Confirmed` adds the amount to pending; entering
/// `Completed` adds it to confirmed and total.
pub open spec fn spec_edge_deltas(
    current: PaymentStatus,
    candidate: PaymentStatus,
    amount: int,
) -> (int, int, int) {
    match (current, candidate) {
        (PaymentStatus::Pending, PaymentStatus::Confirmed) => (amount, 0, 0),
        (PaymentStatus::Pending, PaymentStatus::Completed) => (amount, amount, amount),
        (PaymentStatus::Confirmed, PaymentStatus::Completed) => (0, amount, amount),
        _ => (0, 0, 0),
    }
}

/// The ledger credit owed for entering one status: `Confirmed` adds the
/// amount to pending, `Completed` adds it to confirmed and total.
pub open spec fn spec_entry_deltas(status: PaymentStatus, amount: int) -> (int, int, int) {
    match status {
        PaymentStatus::Confirmed => (amount, 0, 0),
        PaymentStatus::Completed => (0, amount, amount),
        _ => (0, 0, 0),
    }
}

/// The status the evidence supports is a fixed point: deriving it again
/// from the same observation yields itself.  Together with `reconcile`'s
/// contract this is idempotence: after one reconcile has moved the invoice
/// to the candidate status, a second reconcile with no new evidence finds
/// candidate and current equal, returns the same status, and performs no
/// ledger mutation at all.
pub proof fn lemma_reconcile_idempotent(
    current: PaymentStatus,
    amount: u64,
    observation: Observation,
)
    ensures
        spec_candidate_status(
            spec_candidate_status(current, amount, observation),
            amount,
            observation,
        ) == spec_candidate_status(current, amount, observation),
{
}

/// Computes the status the evidence supports.
pub fn candidate_status(current: PaymentStatus, amount: u64, observation: Observation) -> (r:
    PaymentStatus)
    ensures
        r == spec_candidate_status(current, amount, observation),
{
    if observation.balance >= amount && observation.confirmation_count >= MIN_CONFIRMATIONS {
        PaymentStatus::Completed
    } else if observation.balance >= amount {
        PaymentStatus::Confirmed
    } else {
        current
    }
}

/// Credits the merchant's ledger for an invoice that just entered `status`:
/// entering `Confirmed` adds the amount to pending, entering `Completed`
/// adds it to confirmed and total, anything else leaves the ledger alone.
/// The debit path never runs here, so the only failure is arithmetic
/// headroom.
pub fn update_merchant_balance(
    ledger: &mut LedgerStore,
    merchant_id: &String,
    status: PaymentStatus,
    amount_satoshi: u64,
    now: u64,
) -> (r: Result<(), IrisError>)
    requires
        old(ledger).wf(),
        amount_satoshi <= MAX_SATOSHI_SUPPLY,
    ensures
        final(ledger).wf(),
        ({
            let base = spec_base_account(old(ledger).spec_get(merchant_id@), *merchant_id, now);
            let deltas = spec_entry_deltas(status, amount_satoshi as int);
            &&& (status is Confirmed || status is Completed) ==> {
                &&& r is Ok <==> spec_deltas_fit(base, deltas.0, deltas.1, deltas.2)
                &&& r is Ok ==> final(ledger).spec_get(merchant_id@) == Some(
                    spec_adjusted_account(base, *merchant_id, deltas.0, deltas.1, deltas.2, now),
                )
                &&& r is Err ==> r == Err::<(), IrisError>(IrisError::InternalError) && final(ledger).accounts.items@ == old(ledger).accounts.items@
            }
            &&& !(status is Confirmed || status is Completed) ==> r is Ok && final(ledger).accounts.items@ == old(ledger).accounts.items@
        }),
        forall|k: Seq<char>|
            k != merchant_id@ ==> final(ledger).spec_get(k) == old(ledger).spec_get(k),
{
    match status {
        PaymentStatus::Confirmed => ledger.adjust(
            merchant_id,
            amount_satoshi as i64,
            0,
            0,
            now,
        ),
        PaymentStatus::Completed => ledger.adjust(
            merchant_id,
            0,
            amount_satoshi as i64,
            amount_satoshi as i64,
            now,
        ),
        _ => Ok(()),
    }
}

/// Both stores exactly as they were.
pub open spec fn spec_stores_unchanged(
    pre_inv: InvoiceStore,
    pre_led: LedgerStore,
    post_inv: InvoiceStore,
    post_led: LedgerStore,
) -> bool {
    &&& post_inv.invoices.items@ == pre_inv.invoices.items@
    &&& post_inv.counter == pre_inv.counter
    &&& post_led.accounts.items@ == pre_led.accounts.items@
}

/// Everything `reconcile` promises about the stores and its result: absent
/// invoices report `NotFound`; evidence matching the current status changes
/// nothing; legal moves store the new status and credit the ledger for
/// every edge crossed; illegal moves report `InvalidTransition` and touch
/// nothing; and a ledger field without headroom reports `InternalError` and
/// touches nothing.
pub open spec fn spec_reconcile_outcome(
    pre_inv: InvoiceStore,
    pre_led: LedgerStore,
    post_inv: InvoiceStore,
    post_led: LedgerStore,
    id: Seq<char>,
    observation: Observation,
    now: u64,
    r: Result<PaymentStatus, IrisError>,
) -> bool {
    &&& pre_inv.spec_get(id) is None ==> r == Err::<PaymentStatus, _>(IrisError::NotFound)
        && spec_stores_unchanged(pre_inv, pre_led, post_inv, post_led)
    &&& pre_inv.spec_get(id) matches Some(inv) ==> ({
        let current = inv.status;
        let candidate = spec_candidate_status(current, inv.amount_satoshi, observation);
        let m = inv.merchant_id@;
        let base = spec_base_account(pre_led.spec_get(m), inv.merchant_id, now);
        let deltas = spec_edge_deltas(current, candidate, inv.amount_satoshi as int);
        &&& candidate == current ==> r == Ok::<_, IrisError>(current) && spec_stores_unchanged(
            pre_inv,
            pre_led,
            post_inv,
            post_led,
        )
        &&& candidate != current && !spec_reconcile_applies(current, candidate) ==> r == Err::<
            PaymentStatus,
            _,
        >(IrisError::InvalidTransition) && spec_stores_unchanged(pre_inv, pre_led, post_inv,
            post_led)
        &&& candidate != current && spec_reconcile_applies(current, candidate)
            && !spec_deltas_fit(base, deltas.0, deltas.1, deltas.2) ==> r == Err::<
            PaymentStatus,
            _,
        >(IrisError::InternalError) && spec_stores_unchanged(pre_inv, pre_led, post_inv,
            post_led)
        &&& candidate != current && spec_reconcile_applies(current, candidate)
            && spec_deltas_fit(base, deltas.0, deltas.1, deltas.2) ==> {
            &&& r == Ok::<_, IrisError>(candidate)
            &&& post_inv.spec_get(id) == Some(
                Invoice { status: candidate, updated_at: now, ..inv },
            )
            &&& post_inv.invoices.items@.len() == pre_inv.invoices.items@.len()
            &&& post_inv.counter == pre_inv.counter
            &&& forall|k: Seq<char>| k != id ==> post_inv.spec_get(k) == pre_inv.spec_get(k)
            &&& post_led.spec_get(m) == Some(
                spec_adjusted_account(base, inv.merchant_id, deltas.0, deltas.1, deltas.2, now),
            )
            &&& forall|k: Seq<char>| k != m ==> post_led.spec_get(k) == pre_led.spec_get(k)
        }
    })
}

/// Synchronizes one invoice with observed payment evidence, as one atomic
/// step, exactly as `spec_reconcile_outcome` describes.
pub fn reconcile(
    invoices: &mut InvoiceStore,
    ledger: &mut LedgerStore,
    invoice_id: &String,
    observation: Observation,
    now: u64,
) -> (r: Result<PaymentStatus, IrisError>)
    requires
        old(invoices).wf(),
        old(ledger).wf(),
        old(invoices).spec_get(invoice_id@) matches Some(inv) ==> inv.updated_at <= now,
    ensures
        final(invoices).wf(),
        final(ledger).wf(),
        final(invoices).counter == old(invoices).counter,
        spec_reconcile_outcome(
            *old(invoices),
            *old(ledger),
            *final(invoices),
            *final(ledger),
            invoice_id@,
            observation,
            now,
            r,
        ),
{
    let idx = match invoices.invoices.index_of(invoice_id) {
        Some(i) => i,
        None => {
            return Err(IrisError::NotFound);
        },
    };
    let mut inv = invoices.invoices.items[idx].clone();
    let current = inv.status;
    let candidate = candidate_status(current, inv.amount_satoshi, observation);
    if candidate == current {
        return Ok(current);
    }
    let amount = inv.amount_satoshi;
    let deltas: (u64, u64, u64) = match (current, candidate) {
        (PaymentStatus::Pending, PaymentStatus::Confirmed) => {
            match inv.update_status(PaymentStatus::Confirmed, now) {
                Ok(_) => {},
                Err(e) => {
                    return Err(e);
                },
            }
            (amount, 0, 0)
        },
        (PaymentStatus::Pending, PaymentStatus::Completed) => {
            match inv.update_status(PaymentStatus::Confirmed, now) {
                Ok(_) => {},
                Err(e) => {
                    return Err(e);
                },
            }
            match inv.update_status(PaymentStatus::Completed, now) {
                Ok(_) => {},
                Err(e) => {
                    return Err(e);
                },
            }
            (amount, amount, amount)
        },
        (PaymentStatus::Confirmed, PaymentStatus::Completed) => {
            match inv.update_status(PaymentStatus::Completed, now) {
                Ok(_) => {},
                Err(e) => {
                    return Err(e);
                },
            }
            (0, amount, amount)
        },
        _ => {
            return Err(IrisError::InvalidTransition);
        },
    };
    match ledger.adjust(
        &inv.merchant_id,
        deltas.0 as i64,
        deltas.1 as i64,
        deltas.2 as i64,
        now,
    ) {
        Ok(_) => {},
        Err(e) => {
            return Err(e);
        },
    }
    proof {
        let k = choose|k: nat|
            1 <= k <= old(invoices).counter as nat && old(invoices).invoices.items@[
                idx as int
            ].id@ == spec_invoice_id(k);
        assert(1 <= k <= invoices.counter as nat && inv.id@ == spec_invoice_id(k));
    }
    invoices.put(idx, inv);
    Ok(candidate)
}

/// Reconciles an invoice on behalf of its owner: the caller must be the
/// merchant the invoice belongs to, and the rest is `reconcile`.
pub fn check_payment(
    invoices: &mut InvoiceStore,
    ledger: &mut LedgerStore,
    invoice_id: &String,
    caller_id: &String,
    observation: Observation,
    now: u64,
) -> (r: Result<PaymentStatus, IrisError>)
    requires
        old(invoices).wf(),
        old(ledger).wf(),
        old(invoices).spec_get(invoice_id@) matches Some(inv) ==> inv.updated_at <= now,
    ensures
        final(invoices).wf(),
        final(ledger).wf(),
        old(invoices).spec_get(invoice_id@) is None ==> r == Err::<PaymentStatus, _>(
            IrisError::NotFound,
        ) && spec_stores_unchanged(*old(invoices), *old(ledger), *final(invoices), *final(ledger)),
        old(invoices).spec_get(invoice_id@) matches Some(inv) ==> if inv.merchant_id@
            != caller_id@ {
            r == Err::<PaymentStatus, _>(IrisError::Unauthorized) && spec_stores_unchanged(
                *old(invoices),
                *old(ledger),
                *final(invoices),
                *final(ledger),
            )
        } else {
            spec_reconcile_outcome(
                *old(invoices),
                *old(ledger),
                *final(invoices),
                *final(ledger),
                invoice_id@,
                observation,
                now,
                r,
            )
        },
{
    match invoices.invoices.index_of(invoice_id) {
        None => {
            return Err(IrisError::NotFound);
        },
        Some(i) => {
            if !(invoices.invoices.items[i].merchant_id == *caller_id) {
                return Err(IrisError::Unauthorized);
            }
        },
    }
    reconcile(invoices, ledger, invoice_id, observation, now)
}

/// Everything a single forced transition promises: absent invoices report
/// `NotFound`; an illegal edge reports `InvalidTransition` and touches
/// nothing; a legal edge stores the new status and credits the ledger with
/// the entry deltas of the status entered, or reports `InternalError` and
/// touches nothing when a ledger field lacks headroom.
pub open spec fn spec_apply_outcome(
    pre_inv: InvoiceStore,
    pre_led: LedgerStore,
    post_inv: InvoiceStore,
    post_led: LedgerStore,
    id: Seq<char>,
    new_status: PaymentStatus,
    now: u64,
    r: Result<PaymentStatus, IrisError>,
) -> bool {
    &&& pre_inv.spec_get(id) is None ==> r == Err::<PaymentStatus, _>(IrisError::NotFound)
        && spec_stores_unchanged(pre_inv, pre_led, post_inv, post_led)
    &&& pre_inv.spec_get(id) matches Some(inv) ==> ({
        let valid = crate::enums::valid_transition(inv.status, new_status);
        let m = inv.merchant_id@;
        let base = spec_base_account(pre_led.spec_get(m), inv.merchant_id, now);
        let deltas = spec_entry_deltas(new_status, inv.amount_satoshi as int);
        &&& !valid ==> r == Err::<PaymentStatus, _>(IrisError::InvalidTransition)
            && spec_stores_unchanged(pre_inv, pre_led, post_inv, post_led)
        &&& valid && !spec_deltas_fit(base, deltas.0, deltas.1, deltas.2) ==> r == Err::<
            PaymentStatus,
            _,
        >(IrisError::InternalError) && spec_stores_unchanged(pre_inv, pre_led, post_inv,
            post_led)
        &&& valid && spec_deltas_fit(base, deltas.0, deltas.1, deltas.2) ==> {
            &&& r == Ok::<_, IrisError>(new_status)
            &&& post_inv.spec_get(id) == Some(
                Invoice { status: new_status, updated_at: now, ..inv },
            )
            &&& post_inv.invoices.items@.len() == pre_inv.invoices.items@.len()
            &&& post_inv.counter == pre_inv.counter
            &&& forall|k: Seq<char>| k != id ==> post_inv.spec_get(k) == pre_inv.spec_get(k)
            &&& (new_status is Confirmed || new_status is Completed) ==> post_led.spec_get(m)
                == Some(
                spec_adjusted_account(base, inv.merchant_id, deltas.0, deltas.1, deltas.2, now),
            )
            &&& !(new_status is Confirmed || new_status is Completed)
                ==> post_led.accounts.items@ == pre_led.accounts.items@
            &&& forall|k: Seq<char>| k != m ==> post_led.spec_get(k) == pre_led.spec_get(k)
        }
    })
}

/// Forces one status transition through the state machine and credits the
/// ledger for the status entered, as one atomic step, exactly as
/// `spec_apply_outcome` describes.  This is the single path every manual or
/// simulated payment goes through.
pub fn apply_transition(
    invoices: &mut InvoiceStore,
    ledger: &mut LedgerStore,
    invoice_id: &String,
    new_status: PaymentStatus,
    now: u64,
) -> (r: Result<PaymentStatus, IrisError>)
    requires
        old(invoices).wf(),
        old(ledger).wf(),
        old(invoices).spec_get(invoice_id@) matches Some(inv) ==> inv.updated_at <= now,
    ensures
        final(invoices).wf(),
        final(ledger).wf(),
        final(invoices).counter == old(invoices).counter,
        spec_apply_outcome(
            *old(invoices),
            *old(ledger),
            *final(invoices),
            *final(ledger),
            invoice_id@,
            new_status,
            now,
            r,
        ),
{
    let idx = match invoices.invoices.index_of(invoice_id) {
        Some(i) => i,
        None => {
            return Err(IrisError::NotFound);
        },
    };
    let mut inv = invoices.invoices.items[idx].clone();
    match inv.update_status(new_status, now) {
        Ok(_) => {},
        Err(e) => {
            return Err(e);
        },
    }
    let credits_ledger = match new_status {
        PaymentStatus::Confirmed => true,
        PaymentStatus::Completed => true,
        _ => false,
    };
    if credits_ledger {
        match update_merchant_balance(ledger, &inv.merchant_id, new_status, inv.amount_satoshi,
            now) {
            Ok(_) => {},
            Err(e) => {
                return Err(e);
            },
        }
    }
    proof {
        let k = choose|k: nat|
            1 <= k <= old(invoices).counter as nat && old(invoices).invoices.items@[
                idx as int
            ].id@ == spec_invoice_id(k);
        assert(1 <= k <= invoices.counter as nat && inv.id@ == spec_invoice_id(k));
    }
    invoices.put(idx, inv);
    Ok(new_status)
}

/// The single step a simulated wallet payment advances an invoice by:
/// `Pending` escalates to `Confirmed`, `Confirmed` to `Completed`, and a
/// terminal status stays put.
pub open spec fn spec_next_step(current: PaymentStatus) -> Option<PaymentStatus> {
    match current {
        PaymentStatus::Pending => Some(PaymentStatus::Confirmed),
        PaymentStatus::Confirmed => Some(PaymentStatus::Completed),
        _ => None,
    }
}

/// Marks an invoice paid by hand: its owner forces the `Completed` edge and
/// the ledger is credited accordingly.
pub fn simulate_payment(
    invoices: &mut InvoiceStore,
    ledger: &mut LedgerStore,
    invoice_id: &String,
    caller_id: &String,
    now: u64,
) -> (r: Result<PaymentStatus, IrisError>)
    requires
        old(invoices).wf(),
        old(ledger).wf(),
        old(invoices).spec_get(invoice_id@) matches Some(inv) ==> inv.updated_at <= now,
    ensures
        final(invoices).wf(),
        final(ledger).wf(),
        old(invoices).spec_get(invoice_id@) is None ==> r == Err::<PaymentStatus, _>(
            IrisError::NotFound,
        ) && spec_stores_unchanged(*old(invoices), *old(ledger), *final(invoices), *final(ledger)),
        old(invoices).spec_get(invoice_id@) matches Some(inv) ==> if inv.merchant_id@
            != caller_id@ {
            r == Err::<PaymentStatus, _>(IrisError::Unauthorized) && spec_stores_unchanged(
                *old(invoices),
                *old(ledger),
                *final(invoices),
                *final(ledger),
            )
        } else {
            spec_apply_outcome(
                *old(invoices),
                *old(ledger),
                *final(invoices),
                *final(ledger),
                invoice_id@,
                PaymentStatus::Completed,
                now,
                r,
            )
        },
{
    match invoices.invoices.index_of(invoice_id) {
        None => {
            return Err(IrisError::NotFound);
        },
        Some(i) => {
            if !(invoices.invoices.items[i].merchant_id == *caller_id) {
                return Err(IrisError::Unauthorized);
            }
        },
    }
    apply_transition(invoices, ledger, invoice_id, PaymentStatus::Completed, now)
}

/// Marks an invoice confirmed by hand: its owner forces the `Confirmed`
/// edge and the ledger is credited accordingly.
pub fn simulate_payment_confirmed(
    invoices: &mut InvoiceStore,
    ledger: &mut LedgerStore,
    invoice_id: &String,
    caller_id: &String,
    now: u64,
) -> (r: Result<PaymentStatus, IrisError>)
    requires
        old(invoices).wf(),
        old(ledger).wf(),
        old(invoices).spec_get(invoice_id@) matches Some(inv) ==> inv.updated_at <= now,
    ensures
        final(invoices).wf(),
        final(ledger).wf(),
        old(invoices).spec_get(invoice_id@) is None ==> r == Err::<PaymentStatus, _>(
            IrisError::NotFound,
        ) && spec_stores_unchanged(*old(invoices), *old(ledger), *final(invoices), *final(ledger)),
        old(invoices).spec_get(invoice_id@) matches Some(inv) ==> if inv.merchant_id@
            != caller_id@ {
            r == Err::<PaymentStatus, _>(IrisError::Unauthorized) && spec_stores_unchanged(
                *old(invoices),
                *old(ledger),
                *final(invoices),
                *final(ledger),
            )
        } else {
            spec_apply_outcome(
                *old(invoices),
                *old(ledger),
                *final(invoices),
                *final(ledger),
                invoice_id@,
                PaymentStatus::Confirmed,
                now,
                r,
            )
        },
{
    match invoices.invoices.index_of(invoice_id) {
        None => {
            return Err(IrisError::NotFound);
        },
        Some(i) => {
            if !(invoices.invoices.items[i].merchant_id == *caller_id) {
                return Err(IrisError::Unauthorized);
            }
        },
    }
    apply_transition(invoices, ledger, invoice_id, PaymentStatus::Confirmed, now)
}

/// A payment from an external wallet: the invoice is confirmed, and the
/// ledger credited; an invoice past `Pending` makes this an illegal edge.
pub fn simulate_external_wallet_payment(
    invoices: &mut InvoiceStore,
    ledger: &mut LedgerStore,
    invoice_id: &String,
    now: u64,
) -> (r: Result<PaymentStatus, IrisError>)
    requires
        old(invoices).wf(),
        old(ledger).wf(),
        old(invoices).spec_get(invoice_id@) matches Some(inv) ==> inv.updated_at <= now,
    ensures
        final(invoices).wf(),
        final(ledger).wf(),
        spec_apply_outcome(
            *old(invoices),
            *old(ledger),
            *final(invoices),
            *final(ledger),
            invoice_id@,
            PaymentStatus::Confirmed,
            now,
            r,
        ),
{
    apply_transition(invoices, ledger, invoice_id, PaymentStatus::Confirmed, now)
}

/// A wallet payment that advances the invoice one step along the happy
/// path: `Pending` to `Confirmed`, `Confirmed` to `Completed`, and a
/// terminal status is reported back unchanged with no ledger mutation.
pub fn simulate_plug_wallet_payment(
    invoices: &mut InvoiceStore,
    ledger: &mut LedgerStore,
    invoice_id: &String,
    now: u64,
) -> (r: Result<PaymentStatus, IrisError>)
    requires
        old(invoices).wf(),
        old(ledger).wf(),
        old(invoices).spec_get(invoice_id@) matches Some(inv) ==> inv.updated_at <= now,
    ensures
        final(invoices).wf(),
        final(ledger).wf(),
        old(invoices).spec_get(invoice_id@) is None ==> r == Err::<PaymentStatus, _>(
            IrisError::NotFound,
        ) && spec_stores_unchanged(*old(invoices), *old(ledger), *final(invoices), *final(ledger)),
        old(invoices).spec_get(invoice_id@) matches Some(inv) ==> match spec_next_step(
            inv.status,
        ) {
            Some(target) => spec_apply_outcome(
                *old(invoices),
                *old(ledger),
                *final(invoices),
                *final(ledger),
                invoice_id@,
                target,
                now,
                r,
            ),
            None => r == Ok::<_, IrisError>(inv.status) && spec_stores_unchanged(
                *old(invoices),
                *old(ledger),
                *final(invoices),
                *final(ledger),
            ),
        },
{
    let current = match invoices.invoices.index_of(invoice_id) {
        None => {
            return Err(IrisError::NotFound);
        },
        Some(i) => invoices.invoices.items[i].status,
    };
    match current {
        PaymentStatus::Pending => apply_transition(
            invoices,
            ledger,
            invoice_id,
            PaymentStatus::Confirmed,
            now,
        ),
        PaymentStatus::Confirmed => apply_transition(
            invoices,
            ledger,
            invoice_id,
            PaymentStatus::Completed,
            now,
        ),
        _ => Ok(current),
    }
}

/// A mock fiat payment against an invoice: the paid amount is converted at
/// the fixed USD rate; too little value is rejected as `PaymentError` with
/// nothing changed, and enough value advances the invoice one step as a
/// plug-wallet payment would.
pub fn simulate_usd_payment(
    invoices: &mut InvoiceStore,
    ledger: &mut LedgerStore,
    invoice_id: &String,
    usd_cents: u64,
    now: u64,
) -> (r: Result<PaymentStatus, IrisError>)
    requires
        old(invoices).wf(),
        old(ledger).wf(),
        usd_cents <= crate::constants::MAX_FIAT_CENTS,
        old(invoices).spec_get(invoice_id@) matches Some(inv) ==> inv.updated_at <= now,
    ensures
        final(invoices).wf(),
        final(ledger).wf(),
        old(invoices).spec_get(invoice_id@) is None ==> r == Err::<PaymentStatus, _>(
            IrisError::NotFound,
        ) && spec_stores_unchanged(*old(invoices), *old(ledger), *final(invoices), *final(ledger)),
        old(invoices).spec_get(invoice_id@) matches Some(inv) ==> ({
            let paid = crate::currency::spec_fiat_to_satoshi(
                usd_cents as int,
                crate::currency::Currency::USD,
            );
            &&& paid < inv.amount_satoshi ==> r == Err::<PaymentStatus, _>(
                IrisError::PaymentError,
            ) && spec_stores_unchanged(*old(invoices), *old(ledger), *final(invoices), *final(ledger))
            &&& paid >= inv.amount_satoshi ==> match spec_next_step(inv.status) {
                Some(target) => spec_apply_outcome(
                    *old(invoices),
                    *old(ledger),
                    *final(invoices),
                    *final(ledger),
                    invoice_id@,
                    target,
                    now,
                    r,
                ),
                None => r == Ok::<_, IrisError>(inv.status) && spec_stores_unchanged(
                    *old(invoices),
                    *old(ledger),
                    *final(invoices),
                    *final(ledger),
                ),
            }
        }),
{
    let (current, amount) = match invoices.invoices.index_of(invoice_id) {
        None => {
            return Err(IrisError::NotFound);
        },
        Some(i) => (
            invoices.invoices.items[i].status,
            invoices.invoices.items[i].amount_satoshi,
        ),
    };
    let paid = crate::currency::ExchangeService::fiat_to_satoshi(
        usd_cents,
        &crate::currency::Currency::USD,
    );
    if paid < amount {
        return Err(IrisError::PaymentError);
    }
    match current {
        PaymentStatus::Pending => apply_transition(
            invoices,
            ledger,
            invoice_id,
            PaymentStatus::Confirmed,
            now,
        ),
        PaymentStatus::Confirmed => apply_transition(
            invoices,
            ledger,
            invoice_id,
            PaymentStatus::Completed,
            now,
        ),
        _ => Ok(current),
    }
}

/// Per-invoice payment helpers that work on a single invoice record.
pub struct PaymentService;

impl PaymentService {
    /// Reports the stored payment state of an invoice.
    pub fn check_invoice_payment(invoice: &Invoice) -> (r: Result<PaymentStatus, IrisError>)
        ensures
            r == Ok::<_, IrisError>(invoice.status),
    {
        Ok(invoice.status)
    }

    /// A placeholder chain check: without chain access no payment is ever
    /// verified.
    pub fn verify_bitcoin_payment(address: &String, expected_amount: u64) -> (r: Result<
        bool,
        IrisError,
    >)
        ensures
            r == Ok::<bool, IrisError>(false),
    {
        let _ = address;
        let _ = expected_amount;
        Ok(false)
    }

    /// A placeholder confirmation count: without chain access, zero.
    pub fn get_payment_confirmations(address: &String, amount: u64) -> (r: Result<
        u32,
        IrisError,
    >)
        ensures
            r == Ok::<u32, IrisError>(0u32),
    {
        let _ = address;
        let _ = amount;
        Ok(0)
    }

    /// Whether the received amount covers the expected one.
    pub fn validate_payment_amount(received: u64, expected: u64) -> (r: bool)
        ensures
            r == (received >= expected),
    {
        received >= expected
    }

    /// Applies the `Confirmed` edge to one invoice record.
    pub fn process_payment_confirmation(invoice: &mut Invoice, timestamp: u64) -> (r: Result<
        (),
        IrisError,
    >)
        requires
            old(invoice).updated_at <= timestamp,
        ensures
            r is Ok <==> crate::enums::valid_transition(
                old(invoice).status,
                PaymentStatus::Confirmed,
            ),
            r is Ok ==> *final(invoice) == (Invoice {
                status: PaymentStatus::Confirmed,
                updated_at: timestamp,
                ..*old(invoice)
            }),
            r is Err ==> r == Err::<(), _>(IrisError::InvalidTransition) && *final(invoice)
                == *old(invoice),
    {
        match invoice.update_status(PaymentStatus::Confirmed, timestamp) {
            Ok(_) => Ok(()),
            Err(e) => Err(e),
        }
    }

    /// Applies the `Completed` edge to one invoice record.
    pub fn process_payment_completion(invoice: &mut Invoice, timestamp: u64) -> (r: Result<
        (),
        IrisError,
    >)
        requires
            old(invoice).updated_at <= timestamp,
        ensures
            r is Ok <==> crate::enums::valid_transition(
                old(invoice).status,
                PaymentStatus::Completed,
            ),
            r is Ok ==> *final(invoice) == (Invoice {
                status: PaymentStatus::Completed,
                updated_at: timestamp,
                ..*old(invoice)
            }),
            r is Err ==> r == Err::<(), _>(IrisError::InvalidTransition) && *final(invoice)
                == *old(invoice),
    {
        match invoice.update_status(PaymentStatus::Completed, timestamp) {
            Ok(_) => Ok(()),
            Err(e) => Err(e),
        }
    }

    /// A mock fiat payment against one invoice record: enough value at the
    /// fixed USD rate advances it one step along the happy path, too little
    /// is rejected as `PaymentError` with nothing changed.
    pub fn simulate_usd_payment(invoice: &mut Invoice, usd_cents: u64, timestamp: u64) -> (r:
        Result<PaymentStatus, IrisError>)
        requires
            old(invoice).updated_at <= timestamp,
            usd_cents <= crate::constants::MAX_FIAT_CENTS,
        ensures
            ({
                let paid = crate::currency::spec_fiat_to_satoshi(
                    usd_cents as int,
                    crate::currency::Currency::USD,
                );
                &&& paid < old(invoice).amount_satoshi ==> r == Err::<PaymentStatus, _>(
                    IrisError::PaymentError,
                ) && *final(invoice) == *old(invoice)
                &&& paid >= old(invoice).amount_satoshi ==> match spec_next_step(
                    old(invoice).status,
                ) {
                    Some(target) => r == Ok::<_, IrisError>(target) && *final(invoice)
                        == (Invoice { status: target, updated_at: timestamp, ..*old(invoice) }),
                    None => r == Ok::<_, IrisError>(old(invoice).status) && *final(invoice)
                        == *old(invoice),
                }
            }),
    {
        let paid = crate::currency::ExchangeService::fiat_to_satoshi(
            usd_cents,
            &crate::currency::Currency::USD,
        );
        if paid < invoice.amount_satoshi {
            return Err(IrisError::PaymentError);
        }
        Self::simulate_wallet_payment(invoice, timestamp)
    }

    /// Advances one invoice record one step along the happy path, leaving a
    /// terminal status untouched.
    pub fn simulate_wallet_payment(invoice: &mut Invoice, timestamp: u64) -> (r: Result<
        PaymentStatus,
        IrisError,
    >)
        requires
            old(invoice).updated_at <= timestamp,
        ensures
            match spec_next_step(old(invoice).status) {
                Some(target) => r == Ok::<_, IrisError>(target) && *final(invoice) == (Invoice {
                    status: target,
                    updated_at: timestamp,
                    ..*old(invoice)
                }),
                None => r == Ok::<_, IrisError>(old(invoice).status) && *final(invoice) == *old(
                    invoice,
                ),
            },
    {
        let target = match invoice.status {
            PaymentStatus::Pending => PaymentStatus::Confirmed,
            PaymentStatus::Confirmed => PaymentStatus::Completed,
            _ => {
                return Ok(invoice.status);
            },
        };
        match invoice.update_status(target, timestamp) {
            Ok(_) => Ok(target),
            Err(e) => Err(e),
        }
    }

    /// Confirms one invoice record on behalf of an external wallet; an
    /// invoice past `Pending` makes this an illegal edge.
    pub fn simulate_external_payment(invoice: &mut Invoice, timestamp: u64) -> (r: Result<
        PaymentStatus,
        IrisError,
    >)
        requires
            old(invoice).updated_at <= timestamp,
        ensures
            r is Ok <==> old(invoice).status is Pending,
            r is Ok ==> r == Ok::<_, IrisError>(PaymentStatus::Confirmed) && *final(invoice)
                == (Invoice {
                status: PaymentStatus::Confirmed,
                updated_at: timestamp,
                ..*old(invoice)
            }),
            r is Err ==> r == Err::<PaymentStatus, _>(IrisError::InvalidTransition) && *final(invoice) == *old(invoice),
    {
        match invoice.update_status(PaymentStatus::Confirmed, timestamp) {
            Ok(_) => Ok(PaymentStatus::Confirmed),
            Err(e) => Err(e),
        }
    }
}

/// Clones a vector of strings element by element.
fn clone_string_vec(v: &Vec<String>) -> (r: Vec<String>)
    ensures
        r@ == v@,
{
    let mut r: Vec<String> = Vec::new();
    let mut i: usize = 0;
    while i < v.len()
        invariant
            i <= v@.len(),
            r@ =~= v@.take(i as int),
        decreases v@.len() - i,
    {
        r.push(v[i].clone());
        proof {
            assert(r@ =~= v@.take(i + 1));
        }
        i = i + 1;
    }
    proof {
        assert(v@.take(v@.len() as int) =~= v@);
    }
    r
}

/// The invoices that were paid toward one static address.
#[derive(Debug)]
pub struct AddressPayments {
    pub address: String,
    pub invoice_ids: Vec<String>,
}

impl Keyed for AddressPayments {
    open spec fn key(&self) -> Seq<char> {
        self.address@
    }

    fn key_eq(&self, key: &String) -> (r: bool)
        ensures
            r == (self.key() == key@),
    {
        self.address == *key
    }
}

/// Tracks which invoices were paid toward each static address.
pub struct StaticPaymentLog {
    pub entries: KeyedVec<AddressPayments>,
}

impl StaticPaymentLog {
    /// Keys are pairwise distinct.
    pub open spec fn wf(self) -> bool {
        self.entries.wf()
    }

    /// The invoice list recorded for an address, empty when none is.
    pub open spec fn spec_payments_for(self, address: Seq<char>) -> Seq<String> {
        match self.entries.spec_get(address) {
            Some(e) => e.invoice_ids@,
            None => Seq::<String>::empty(),
        }
    }

    /// An empty log.
    pub fn new() -> (r: Self)
        ensures
            r.wf(),
            r.entries.items@ == Seq::<AddressPayments>::empty(),
            forall|a: Seq<char>| r.spec_payments_for(a) == Seq::<String>::empty(),
    {
        StaticPaymentLog { entries: KeyedVec::new() }
    }

    /// Appends an invoice to the address's list, starting the list at its
    /// first payment.
    pub fn track_payment_to_static_address(&mut self, bitcoin_address: &String, invoice_id:
        String)
        requires
            old(self).wf(),
        ensures
            final(self).wf(),
            final(self).spec_payments_for(bitcoin_address@) == old(self).spec_payments_for(
                bitcoin_address@,
            ).push(invoice_id),
            forall|a: Seq<char>|
                a != bitcoin_address@ ==> final(self).spec_payments_for(a) == old(
                    self,
                ).spec_payments_for(a),
    {
        match self.entries.index_of(bitcoin_address) {
            Some(i) => {
                let mut ids = clone_string_vec(&self.entries.items[i].invoice_ids);
                ids.push(invoice_id);
                let entry = AddressPayments {
                    address: self.entries.items[i].address.clone(),
                    invoice_ids: ids,
                };
                self.entries.set_item(i, entry);
            },
            None => {
                let mut ids: Vec<String> = Vec::new();
                ids.push(invoice_id);
                let entry = AddressPayments { address: bitcoin_address.clone(), invoice_ids: ids };
                self.entries.push_item(entry);
            },
        }
    }

    /// The invoices recorded for an address, empty when none is.
    pub fn get_payments_for_address(&self, bitcoin_address: &String) -> (r: Vec<String>)
        requires
            self.wf(),
        ensures
            r@ == self.spec_payments_for(bitcoin_address@),
    {
        match self.entries.get(bitcoin_address) {
            Some(e) => clone_string_vec(&e.invoice_ids),
            None => Vec::new(),
        }
    }
}

/// A request to settle an invoice by a mock fiat payment, in cents.
#[derive(Debug)]
pub struct MockUSDPaymentRequest {
    pub invoice_id: String,
    pub usd_cents: u64,
}

/// A request to settle an invoice by a chosen payment method.
#[derive(Debug)]
pub struct PaymentRequest {
    pub invoice_id: String,
    pub payment_method: crate::enums::PaymentMethod,
    pub usd_cents: Option<u64>,
}

/// The payment methods offered, in their fixed order.
pub fn get_payment_methods() -> (r: Vec<crate::enums::PaymentMethod>)
    ensures
        r@ == seq![
            crate::enums::PaymentMethod::VirtualWallet,
            crate::enums::PaymentMethod::PlugWallet,
            crate::enums::PaymentMethod::MockUSD,
            crate::enums::PaymentMethod::ExternalWallet,
        ],
{
    let mut r: Vec<crate::enums::PaymentMethod> = Vec::new();
    r.push(crate::enums::PaymentMethod::VirtualWallet);
    r.push(crate::enums::PaymentMethod::PlugWallet);
    r.push(crate::enums::PaymentMethod::MockUSD);
    r.push(crate::enums::PaymentMethod::ExternalWallet);
    proof {
        assert(r@ =~= seq![
            crate::enums::PaymentMethod::VirtualWallet,
            crate::enums::PaymentMethod::PlugWallet,
            crate::enums::PaymentMethod::MockUSD,
            crate::enums::PaymentMethod::ExternalWallet,
        ]);
    }
    r
}

} // verus!
