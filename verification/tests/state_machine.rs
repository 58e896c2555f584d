//! The invoice status graph: legal edges, rejected moves, terminal states.

use iris_backend::currency::Currency;
use iris_backend::enums::PaymentStatus;
use iris_backend::errors::IrisError;
use iris_backend::invoice::{create_invoice, InvoiceStore};
use iris_backend::ledger::LedgerStore;
use iris_backend::merchant::MerchantStore;
use iris_backend::payment::{apply_transition, reconcile, Observation};

fn fresh_invoice() -> iris_backend::invoice::Invoice {
    iris_backend::invoice::Invoice::new(
        String::from("INV-000042"),
        String::from("merchant-principal-1"),
        105_263,
        String::from("mzJ9Gi7vvN1mdTrmPFHyTTVLyEjKCTsSfF"),
        100,
        None,
        Currency::USD,
        10_000,
    )
}

#[test]
fn legal_edges_succeed_and_stamp_updated_at() {
    let mut inv = fresh_invoice();
    let r = inv.update_status(PaymentStatus::Confirmed, 110).unwrap();
    assert_eq!(r, (PaymentStatus::Pending, PaymentStatus::Confirmed));
    assert_eq!(inv.status, PaymentStatus::Confirmed);
    assert_eq!(inv.updated_at, 110);

    let r = inv.update_status(PaymentStatus::Completed, 120).unwrap();
    assert_eq!(r, (PaymentStatus::Confirmed, PaymentStatus::Completed));
    assert_eq!(inv.status, PaymentStatus::Completed);
    assert_eq!(inv.updated_at, 120);
}

#[test]
fn pending_and_confirmed_may_fail() {
    let mut inv = fresh_invoice();
    inv.update_status(PaymentStatus::Failed, 110).unwrap();
    assert_eq!(inv.status, PaymentStatus::Failed);

    let mut inv = fresh_invoice();
    inv.update_status(PaymentStatus::Confirmed, 110).unwrap();
    inv.update_status(PaymentStatus::Failed, 120).unwrap();
    assert_eq!(inv.status, PaymentStatus::Failed);
}

#[test]
fn repeating_the_current_status_is_rejected() {
    let mut inv = fresh_invoice();
    let r = inv.update_status(PaymentStatus::Pending, 110);
    assert!(matches!(r, Err(IrisError::InvalidTransition)));
    assert_eq!(inv.status, PaymentStatus::Pending);
    assert_eq!(inv.updated_at, 100);
}

#[test]
fn reverse_and_skipping_moves_are_rejected() {
    let mut inv = fresh_invoice();
    // Pending cannot jump straight to Completed.
    let r = inv.update_status(PaymentStatus::Completed, 110);
    assert!(matches!(r, Err(IrisError::InvalidTransition)));
    assert_eq!(inv.status, PaymentStatus::Pending);

    inv.update_status(PaymentStatus::Confirmed, 110).unwrap();
    let r = inv.update_status(PaymentStatus::Pending, 120);
    assert!(matches!(r, Err(IrisError::InvalidTransition)));
    assert_eq!(inv.status, PaymentStatus::Confirmed);
    assert_eq!(inv.updated_at, 110);
}

#[test]
fn completed_and_failed_are_terminal() {
    let mut inv = fresh_invoice();
    inv.update_status(PaymentStatus::Confirmed, 110).unwrap();
    inv.update_status(PaymentStatus::Completed, 120).unwrap();
    for target in [
        PaymentStatus::Pending,
        PaymentStatus::Confirmed,
        PaymentStatus::Completed,
        PaymentStatus::Failed,
    ] {
        let r = inv.update_status(target, 130);
        assert!(matches!(r, Err(IrisError::InvalidTransition)));
    }

    let mut inv = fresh_invoice();
    inv.update_status(PaymentStatus::Failed, 110).unwrap();
    for target in [
        PaymentStatus::Pending,
        PaymentStatus::Confirmed,
        PaymentStatus::Completed,
        PaymentStatus::Failed,
    ] {
        let r = inv.update_status(target, 130);
        assert!(matches!(r, Err(IrisError::InvalidTransition)));
    }
}

#[test]
fn can_transition_to_matches_the_four_edges() {
    let all = [
        PaymentStatus::Pending,
        PaymentStatus::Confirmed,
        PaymentStatus::Completed,
        PaymentStatus::Failed,
    ];
    let legal = [
        (PaymentStatus::Pending, PaymentStatus::Confirmed),
        (PaymentStatus::Pending, PaymentStatus::Failed),
        (PaymentStatus::Confirmed, PaymentStatus::Completed),
        (PaymentStatus::Confirmed, PaymentStatus::Failed),
    ];
    for from in all {
        for to in all {
            let expected = legal.contains(&(from, to));
            assert_eq!(from.can_transition_to(to), expected);
        }
    }
}

#[test]
fn evidence_after_failure_is_rejected_and_ledger_untouched() {
    let mut invoices = InvoiceStore::new();
    let mut merchants = MerchantStore::new();
    let mut ledger = LedgerStore::new();
    let merchant_id = String::from("merchant-principal-1");
    let principal_bytes: Vec<u8> = vec![9, 9, 9];
    merchants
        .register_merchant(&merchant_id, &principal_bytes, String::from("Shop"), 1)
        .unwrap();
    let inv = create_invoice(&mut invoices, &mut merchants, &merchant_id, 10_000,
        Currency::USD, None, 10)
        .unwrap();
    apply_transition(&mut invoices, &mut ledger, &inv.id, PaymentStatus::Failed, 20).unwrap();

    let observation = Observation { balance: 500_000, confirmation_count: 3 };
    let r = reconcile(&mut invoices, &mut ledger, &inv.id, observation, 30);
    assert!(matches!(r, Err(IrisError::InvalidTransition)));

    assert!(ledger.get_merchant_balance(&merchant_id).is_err());
    let stored = invoices.get_invoice(&inv.id, &merchant_id).unwrap();
    assert_eq!(stored.status, PaymentStatus::Failed);
    assert_eq!(stored.updated_at, 20);
}

#[test]
fn adjust_rejects_negative_results_and_leaves_account_unchanged() {
    let mut ledger = LedgerStore::new();
    let merchant_id = String::from("merchant-principal-1");
    ledger.adjust(&merchant_id, 50, 40, 90, 10).unwrap();

    let r = ledger.adjust(&merchant_id, -60, 0, 0, 20);
    assert!(matches!(r, Err(IrisError::NegativeBalance)));
    let b = ledger.get_merchant_balance(&merchant_id).unwrap();
    assert_eq!(b.pending_satoshi, 50);
    assert_eq!(b.confirmed_satoshi, 40);
    assert_eq!(b.total_satoshi, 90);
    assert_eq!(b.last_updated, 10);

    let r = ledger.adjust(&merchant_id, 0, -41, -41, 20);
    assert!(matches!(r, Err(IrisError::NegativeBalance)));
    let b = ledger.get_merchant_balance(&merchant_id).unwrap();
    assert_eq!(b.confirmed_satoshi, 40);
}

#[test]
fn adjust_creates_a_zeroed_account_lazily() {
    let mut ledger = LedgerStore::new();
    let merchant_id = String::from("merchant-principal-1");
    assert!(matches!(
        ledger.get_merchant_balance(&merchant_id),
        Err(IrisError::NotFound)
    ));
    ledger.adjust(&merchant_id, 7, 0, 0, 5).unwrap();
    let b = ledger.get_merchant_balance(&merchant_id).unwrap();
    assert_eq!(b.pending_satoshi, 7);
    assert_eq!(b.confirmed_satoshi, 0);
    assert_eq!(b.total_satoshi, 0);
    assert_eq!(b.preferred_currency, Currency::USD);
    assert_eq!(b.last_updated, 5);
}

#[test]
fn get_or_create_returns_existing_account_untouched() {
    let mut ledger = LedgerStore::new();
    let merchant_id = String::from("merchant-principal-1");
    let fresh = ledger.get_or_create(&merchant_id, 3);
    assert_eq!(fresh.pending_satoshi, 0);
    ledger.adjust(&merchant_id, 11, 0, 0, 4).unwrap();
    let again = ledger.get_or_create(&merchant_id, 99);
    assert_eq!(again.pending_satoshi, 11);
    assert_eq!(again.last_updated, 4);
}

#[test]
fn set_preferred_currency_updates_only_existing_accounts() {
    let mut ledger = LedgerStore::new();
    let merchant_id = String::from("merchant-principal-1");
    ledger.set_preferred_currency(&merchant_id, Currency::IDR, 9);
    assert!(ledger.get_merchant_balance(&merchant_id).is_err());

    ledger.adjust(&merchant_id, 0, 0, 0, 10).unwrap();
    ledger.set_preferred_currency(&merchant_id, Currency::SGD, 11);
    let b = ledger.get_merchant_balance(&merchant_id).unwrap();
    assert_eq!(b.preferred_currency, Currency::SGD);
    assert_eq!(b.last_updated, 11);
}
