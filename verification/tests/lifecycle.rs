//! End-to-end flows: invoice creation, reconciliation, and cashout.

use iris_backend::cashout::CashoutProcessor;
use iris_backend::currency::Currency;
use iris_backend::enums::{CashoutStatus, PaymentStatus};
use iris_backend::errors::IrisError;
use iris_backend::invoice::{create_invoice, InvoiceStore};
use iris_backend::ledger::LedgerStore;
use iris_backend::merchant::MerchantStore;
use iris_backend::payment::{reconcile, Observation};

fn setup_merchant(merchants: &mut MerchantStore) -> String {
    let merchant_id = String::from("merchant-principal-1");
    let principal_bytes: Vec<u8> = vec![1, 2, 3, 4];
    merchants
        .register_merchant(&merchant_id, &principal_bytes, String::from("Iris Coffee"), 50)
        .unwrap();
    merchant_id
}

#[test]
fn create_invoice_for_100_usd_converts_to_105263_satoshi() {
    let mut invoices = InvoiceStore::new();
    let mut merchants = MerchantStore::new();
    let merchant_id = setup_merchant(&mut merchants);

    let inv = create_invoice(
        &mut invoices,
        &mut merchants,
        &merchant_id,
        10_000,
        Currency::USD,
        None,
        100,
    )
    .unwrap();

    assert_eq!(inv.amount_satoshi, 105_263);
    assert_eq!(inv.id, "INV-000001");
    assert_eq!(inv.status, PaymentStatus::Pending);
    assert_eq!(inv.fiat_amount, 10_000);
    assert_eq!(inv.created_at, 100);
    assert_eq!(inv.updated_at, 100);

    let profile = merchants.get_merchant_profile(&merchant_id).unwrap();
    assert_eq!(profile.total_invoices, 1);
}

#[test]
fn reconcile_with_confirmed_evidence_completes_and_credits_ledger() {
    let mut invoices = InvoiceStore::new();
    let mut merchants = MerchantStore::new();
    let mut ledger = LedgerStore::new();
    let merchant_id = setup_merchant(&mut merchants);

    let inv = create_invoice(
        &mut invoices,
        &mut merchants,
        &merchant_id,
        10_000,
        Currency::USD,
        None,
        100,
    )
    .unwrap();

    let observation = Observation { balance: 200_000, confirmation_count: 1 };
    let status = reconcile(&mut invoices, &mut ledger, &inv.id, observation, 200).unwrap();
    assert_eq!(status, PaymentStatus::Completed);

    let balance = ledger.get_merchant_balance(&merchant_id).unwrap();
    assert_eq!(balance.confirmed_satoshi, 105_263);
    assert_eq!(balance.total_satoshi, 105_263);

    let stored = invoices.get_invoice(&inv.id, &merchant_id).unwrap();
    assert_eq!(stored.status, PaymentStatus::Completed);
    assert_eq!(stored.updated_at, 200);
}

#[test]
fn reconcile_below_threshold_confirms_only() {
    let mut invoices = InvoiceStore::new();
    let mut merchants = MerchantStore::new();
    let mut ledger = LedgerStore::new();
    let merchant_id = setup_merchant(&mut merchants);

    let inv = create_invoice(
        &mut invoices,
        &mut merchants,
        &merchant_id,
        10_000,
        Currency::USD,
        None,
        100,
    )
    .unwrap();

    let observation = Observation { balance: 105_263, confirmation_count: 0 };
    let status = reconcile(&mut invoices, &mut ledger, &inv.id, observation, 150).unwrap();
    assert_eq!(status, PaymentStatus::Confirmed);

    let balance = ledger.get_merchant_balance(&merchant_id).unwrap();
    assert_eq!(balance.pending_satoshi, 105_263);
    assert_eq!(balance.confirmed_satoshi, 0);
    assert_eq!(balance.total_satoshi, 0);
}

#[test]
fn reconcile_twice_with_same_evidence_is_idempotent() {
    let mut invoices = InvoiceStore::new();
    let mut merchants = MerchantStore::new();
    let mut ledger = LedgerStore::new();
    let merchant_id = setup_merchant(&mut merchants);

    let inv = create_invoice(
        &mut invoices,
        &mut merchants,
        &merchant_id,
        10_000,
        Currency::USD,
        None,
        100,
    )
    .unwrap();

    let observation = Observation { balance: 105_263, confirmation_count: 0 };
    let first = reconcile(&mut invoices, &mut ledger, &inv.id, observation, 150).unwrap();
    let before = ledger.get_merchant_balance(&merchant_id).unwrap();

    let second = reconcile(&mut invoices, &mut ledger, &inv.id, observation, 160).unwrap();
    let after = ledger.get_merchant_balance(&merchant_id).unwrap();

    assert_eq!(first, second);
    assert_eq!(before.pending_satoshi, after.pending_satoshi);
    assert_eq!(before.confirmed_satoshi, after.confirmed_satoshi);
    assert_eq!(before.total_satoshi, after.total_satoshi);
    assert_eq!(before.last_updated, after.last_updated);
    let stored = invoices.get_invoice(&inv.id, &merchant_id).unwrap();
    assert_eq!(stored.updated_at, 150);
}

#[test]
fn reconcile_insufficient_balance_changes_nothing() {
    let mut invoices = InvoiceStore::new();
    let mut merchants = MerchantStore::new();
    let mut ledger = LedgerStore::new();
    let merchant_id = setup_merchant(&mut merchants);

    let inv = create_invoice(
        &mut invoices,
        &mut merchants,
        &merchant_id,
        10_000,
        Currency::USD,
        None,
        100,
    )
    .unwrap();

    let observation = Observation { balance: 105_262, confirmation_count: 5 };
    let status = reconcile(&mut invoices, &mut ledger, &inv.id, observation, 150).unwrap();
    assert_eq!(status, PaymentStatus::Pending);
    assert!(ledger.get_merchant_balance(&merchant_id).is_err());
}

#[test]
fn reconcile_unknown_invoice_reports_not_found() {
    let mut invoices = InvoiceStore::new();
    let mut ledger = LedgerStore::new();
    let observation = Observation { balance: 1, confirmation_count: 1 };
    let missing = String::from("INV-009999");
    let r = reconcile(&mut invoices, &mut ledger, &missing, observation, 10);
    assert!(matches!(r, Err(IrisError::NotFound)));
}

#[test]
fn cashout_exceeding_confirmed_balance_fails() {
    let mut ledger = LedgerStore::new();
    let mut cashouts = CashoutProcessor::new();
    let merchant_id = String::from("merchant-principal-1");
    ledger.adjust(&merchant_id, 0, 105_263, 105_263, 10).unwrap();

    let r = cashouts.create_cashout_request(
        &mut ledger,
        &merchant_id,
        200_000,
        Currency::USD,
        None,
        20,
    );
    assert!(matches!(r, Err(IrisError::InsufficientBalance)));

    let balance = ledger.get_merchant_balance(&merchant_id).unwrap();
    assert_eq!(balance.confirmed_satoshi, 105_263);
    assert_eq!(balance.total_satoshi, 105_263);
    assert!(cashouts.get_my_cashout_requests(&merchant_id).is_empty());
}

#[test]
fn cashout_within_confirmed_balance_debits_ledger() {
    let mut ledger = LedgerStore::new();
    let mut cashouts = CashoutProcessor::new();
    let merchant_id = String::from("merchant-principal-1");
    ledger.adjust(&merchant_id, 0, 105_263, 105_263, 10).unwrap();

    let cashout = cashouts
        .create_cashout_request(&mut ledger, &merchant_id, 100_000, Currency::USD, None, 20)
        .unwrap();

    assert_eq!(cashout.id, "CASH-000001");
    assert_eq!(cashout.status, CashoutStatus::Pending);
    assert_eq!(cashout.amount_satoshi, 100_000);

    let balance = ledger.get_merchant_balance(&merchant_id).unwrap();
    assert_eq!(balance.confirmed_satoshi, 5_263);
    assert_eq!(balance.total_satoshi, 5_263);

    let mine = cashouts.get_my_cashout_requests(&merchant_id);
    assert_eq!(mine.len(), 1);
    assert_eq!(mine[0].id, "CASH-000001");
}

#[test]
fn cashout_for_unknown_merchant_reports_not_found() {
    let mut ledger = LedgerStore::new();
    let mut cashouts = CashoutProcessor::new();
    let merchant_id = String::from("merchant-without-balance");
    let r = cashouts.create_cashout_request(
        &mut ledger,
        &merchant_id,
        1_000,
        Currency::USD,
        None,
        20,
    );
    assert!(matches!(r, Err(IrisError::NotFound)));
}

#[test]
fn cashout_quotes_fiat_equivalent_at_fixed_rate() {
    let mut ledger = LedgerStore::new();
    let mut cashouts = CashoutProcessor::new();
    let merchant_id = String::from("merchant-principal-1");
    ledger.adjust(&merchant_id, 0, 105_263, 105_263, 10).unwrap();

    let cashout = cashouts
        .create_cashout_request(&mut ledger, &merchant_id, 105_263, Currency::USD, None, 20)
        .unwrap();
    // 105263 satoshi at 95000 USD per coin is 9999 whole cents, truncated.
    assert_eq!(cashout.fiat_amount, 9_999);
}

#[test]
fn create_invoice_rejects_unregistered_merchant_and_bad_amount() {
    let mut invoices = InvoiceStore::new();
    let mut merchants = MerchantStore::new();
    let unknown = String::from("nobody");
    let r = create_invoice(&mut invoices, &mut merchants, &unknown, 10_000, Currency::USD, None,
        1);
    assert!(matches!(r, Err(IrisError::NotFound)));

    let merchant_id = setup_merchant(&mut merchants);
    let r = create_invoice(&mut invoices, &mut merchants, &merchant_id, 0, Currency::USD, None,
        1);
    assert!(matches!(r, Err(IrisError::InvalidInput)));
    let r = create_invoice(
        &mut invoices,
        &mut merchants,
        &merchant_id,
        100_000_001,
        Currency::USD,
        None,
        1,
    );
    assert!(matches!(r, Err(IrisError::InvalidInput)));
    let profile = merchants.get_merchant_profile(&merchant_id).unwrap();
    assert_eq!(profile.total_invoices, 0);
}

#[test]
fn sequential_invoices_get_distinct_ids() {
    let mut invoices = InvoiceStore::new();
    let mut merchants = MerchantStore::new();
    let merchant_id = setup_merchant(&mut merchants);
    let a = create_invoice(&mut invoices, &mut merchants, &merchant_id, 100, Currency::USD,
        None, 1)
        .unwrap();
    let b = create_invoice(&mut invoices, &mut merchants, &merchant_id, 200, Currency::GBP,
        None, 2)
        .unwrap();
    assert_eq!(a.id, "INV-000001");
    assert_eq!(b.id, "INV-000002");
    let mine = invoices.get_my_invoices(&merchant_id);
    assert_eq!(mine.len(), 2);
}
