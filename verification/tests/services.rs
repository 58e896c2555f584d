//! Simulated payment paths, users, dashboards, and the static-address log.

use iris_backend::currency::Currency;
use iris_backend::enums::{PaymentMethod, PaymentStatus, UserRole};
use iris_backend::errors::IrisError;
use iris_backend::invoice::{create_invoice, InvoiceStore};
use iris_backend::ledger::LedgerStore;
use iris_backend::merchant::{get_merchant_dashboard, MerchantStore};
use iris_backend::payment::{
    check_payment, get_payment_methods, simulate_payment, simulate_payment_confirmed,
    simulate_plug_wallet_payment, simulate_usd_payment, Observation, PaymentService,
    StaticPaymentLog,
};
use iris_backend::user::UserStore;

struct World {
    invoices: InvoiceStore,
    merchants: MerchantStore,
    ledger: LedgerStore,
    merchant_id: String,
}

fn world() -> World {
    let mut merchants = MerchantStore::new();
    let merchant_id = String::from("merchant-principal-1");
    let principal_bytes: Vec<u8> = vec![1, 2, 3, 4];
    merchants
        .register_merchant(&merchant_id, &principal_bytes, String::from("Iris Coffee"), 1)
        .unwrap();
    World { invoices: InvoiceStore::new(), merchants, ledger: LedgerStore::new(), merchant_id }
}

#[test]
fn usd_payment_escalates_one_step_per_call() {
    let mut w = world();
    let inv = create_invoice(&mut w.invoices, &mut w.merchants, &w.merchant_id, 10_000,
        Currency::USD, None, 10)
        .unwrap();

    // 100.00 USD covers the invoice: first call confirms, second completes.
    let s = simulate_usd_payment(&mut w.invoices, &mut w.ledger, &inv.id, 10_000, 20).unwrap();
    assert_eq!(s, PaymentStatus::Confirmed);
    let b = w.ledger.get_merchant_balance(&w.merchant_id).unwrap();
    assert_eq!(b.pending_satoshi, 105_263);
    assert_eq!(b.confirmed_satoshi, 0);

    let s = simulate_usd_payment(&mut w.invoices, &mut w.ledger, &inv.id, 10_000, 30).unwrap();
    assert_eq!(s, PaymentStatus::Completed);
    let b = w.ledger.get_merchant_balance(&w.merchant_id).unwrap();
    assert_eq!(b.confirmed_satoshi, 105_263);
    assert_eq!(b.total_satoshi, 105_263);

    // A third call finds the invoice terminal and changes nothing.
    let s = simulate_usd_payment(&mut w.invoices, &mut w.ledger, &inv.id, 10_000, 40).unwrap();
    assert_eq!(s, PaymentStatus::Completed);
    let b = w.ledger.get_merchant_balance(&w.merchant_id).unwrap();
    assert_eq!(b.total_satoshi, 105_263);
}

#[test]
fn usd_payment_below_the_invoice_amount_is_rejected() {
    let mut w = world();
    let inv = create_invoice(&mut w.invoices, &mut w.merchants, &w.merchant_id, 10_000,
        Currency::USD, None, 10)
        .unwrap();
    let r = simulate_usd_payment(&mut w.invoices, &mut w.ledger, &inv.id, 9_999, 20);
    assert!(matches!(r, Err(IrisError::PaymentError)));
    let stored = w.invoices.get_invoice(&inv.id, &w.merchant_id).unwrap();
    assert_eq!(stored.status, PaymentStatus::Pending);
    assert!(w.ledger.get_merchant_balance(&w.merchant_id).is_err());
}

#[test]
fn plug_wallet_payment_walks_the_happy_path() {
    let mut w = world();
    let inv = create_invoice(&mut w.invoices, &mut w.merchants, &w.merchant_id, 10_000,
        Currency::USD, None, 10)
        .unwrap();
    let s = simulate_plug_wallet_payment(&mut w.invoices, &mut w.ledger, &inv.id, 20).unwrap();
    assert_eq!(s, PaymentStatus::Confirmed);
    let s = simulate_plug_wallet_payment(&mut w.invoices, &mut w.ledger, &inv.id, 30).unwrap();
    assert_eq!(s, PaymentStatus::Completed);
    let b = w.ledger.get_merchant_balance(&w.merchant_id).unwrap();
    assert_eq!(b.pending_satoshi, 105_263);
    assert_eq!(b.confirmed_satoshi, 105_263);
    assert_eq!(b.total_satoshi, 105_263);
}

#[test]
fn manual_marks_check_ownership_and_the_state_machine() {
    let mut w = world();
    let inv = create_invoice(&mut w.invoices, &mut w.merchants, &w.merchant_id, 10_000,
        Currency::USD, None, 10)
        .unwrap();

    let stranger = String::from("someone-else");
    let r = simulate_payment(&mut w.invoices, &mut w.ledger, &inv.id, &stranger, 20);
    assert!(matches!(r, Err(IrisError::Unauthorized)));

    // Marking a pending invoice completed skips an edge and is rejected.
    let r = simulate_payment(&mut w.invoices, &mut w.ledger, &inv.id, &w.merchant_id, 20);
    assert!(matches!(r, Err(IrisError::InvalidTransition)));
    assert!(w.ledger.get_merchant_balance(&w.merchant_id).is_err());

    let s = simulate_payment_confirmed(&mut w.invoices, &mut w.ledger, &inv.id, &w.merchant_id,
        20)
        .unwrap();
    assert_eq!(s, PaymentStatus::Confirmed);
    let s = simulate_payment(&mut w.invoices, &mut w.ledger, &inv.id, &w.merchant_id, 30)
        .unwrap();
    assert_eq!(s, PaymentStatus::Completed);
    let b = w.ledger.get_merchant_balance(&w.merchant_id).unwrap();
    assert_eq!(b.pending_satoshi, 105_263);
    assert_eq!(b.confirmed_satoshi, 105_263);
    assert_eq!(b.total_satoshi, 105_263);
}

#[test]
fn check_payment_requires_ownership() {
    let mut w = world();
    let inv = create_invoice(&mut w.invoices, &mut w.merchants, &w.merchant_id, 10_000,
        Currency::USD, None, 10)
        .unwrap();
    let stranger = String::from("someone-else");
    let observation = Observation { balance: 200_000, confirmation_count: 1 };
    let r = check_payment(&mut w.invoices, &mut w.ledger, &inv.id, &stranger, observation, 20);
    assert!(matches!(r, Err(IrisError::Unauthorized)));

    let s = check_payment(&mut w.invoices, &mut w.ledger, &inv.id, &w.merchant_id, observation,
        20)
        .unwrap();
    assert_eq!(s, PaymentStatus::Completed);
}

#[test]
fn payment_service_advances_single_records() {
    let mut inv = iris_backend::invoice::Invoice::new(
        String::from("INV-000001"),
        String::from("m"),
        1_000,
        String::from("addr"),
        10,
        None,
        Currency::USD,
        100,
    );
    assert_eq!(
        PaymentService::check_invoice_payment(&inv),
        Ok(PaymentStatus::Pending)
    );
    PaymentService::process_payment_confirmation(&mut inv, 20).unwrap();
    assert_eq!(inv.status, PaymentStatus::Confirmed);
    PaymentService::process_payment_completion(&mut inv, 30).unwrap();
    assert_eq!(inv.status, PaymentStatus::Completed);
    let r = PaymentService::process_payment_confirmation(&mut inv, 40);
    assert!(matches!(r, Err(IrisError::InvalidTransition)));
}

#[test]
fn payment_service_simulations_follow_one_step_policy() {
    let mut inv = iris_backend::invoice::Invoice::new(
        String::from("INV-000001"),
        String::from("m"),
        105_263,
        String::from("addr"),
        10,
        None,
        Currency::USD,
        10_000,
    );
    let r = PaymentService::simulate_usd_payment(&mut inv, 9_999, 20);
    assert!(matches!(r, Err(IrisError::PaymentError)));
    let s = PaymentService::simulate_usd_payment(&mut inv, 10_000, 20).unwrap();
    assert_eq!(s, PaymentStatus::Confirmed);
    let s = PaymentService::simulate_wallet_payment(&mut inv, 30).unwrap();
    assert_eq!(s, PaymentStatus::Completed);
    let s = PaymentService::simulate_wallet_payment(&mut inv, 40).unwrap();
    assert_eq!(s, PaymentStatus::Completed);

    let mut fresh = iris_backend::invoice::Invoice::new(
        String::from("INV-000002"),
        String::from("m"),
        1,
        String::from("addr"),
        10,
        None,
        Currency::USD,
        1,
    );
    let s = PaymentService::simulate_external_payment(&mut fresh, 20).unwrap();
    assert_eq!(s, PaymentStatus::Confirmed);
    let r = PaymentService::simulate_external_payment(&mut fresh, 30);
    assert!(matches!(r, Err(IrisError::InvalidTransition)));
}

#[test]
fn payment_service_stubs_report_no_chain_activity() {
    let addr = String::from("addr");
    assert_eq!(PaymentService::verify_bitcoin_payment(&addr, 5), Ok(false));
    assert_eq!(PaymentService::get_payment_confirmations(&addr, 5), Ok(0));
    assert!(PaymentService::validate_payment_amount(10, 10));
    assert!(!PaymentService::validate_payment_amount(9, 10));
    assert_eq!(
        iris_backend::bitcoin::BitcoinService::get_bitcoin_balance(&addr),
        Ok(0)
    );
    assert!(iris_backend::bitcoin::BitcoinService::get_bitcoin_utxos(&addr)
        .unwrap()
        .is_empty());
    let generated = iris_backend::bitcoin::BitcoinService::generate_bitcoin_address().unwrap();
    assert_eq!(generated.address, "tb1qtest123456789");
}

#[test]
fn dashboard_counts_open_and_completed_invoices() {
    let mut w = world();
    let a = create_invoice(&mut w.invoices, &mut w.merchants, &w.merchant_id, 10_000,
        Currency::USD, None, 10)
        .unwrap();
    let _b = create_invoice(&mut w.invoices, &mut w.merchants, &w.merchant_id, 5_000,
        Currency::USD, None, 11)
        .unwrap();
    simulate_payment_confirmed(&mut w.invoices, &mut w.ledger, &a.id, &w.merchant_id, 20)
        .unwrap();
    simulate_payment(&mut w.invoices, &mut w.ledger, &a.id, &w.merchant_id, 30).unwrap();

    let profile = w.merchants.get_merchant_profile(&w.merchant_id).unwrap();
    let balance = w.ledger.get_merchant_balance(&w.merchant_id).unwrap();
    let dashboard = get_merchant_dashboard(&profile, &balance, &w.invoices.invoices.items);
    assert_eq!(dashboard.total_invoices, 2);
    assert_eq!(dashboard.pending_payments, 1);
    assert_eq!(dashboard.completed_payments, 1);
    assert_eq!(dashboard.total_balance_satoshi, 105_263);
    assert_eq!(dashboard.total_balance_fiat, 9_999);
    assert_eq!(dashboard.preferred_currency, Currency::USD);
}

#[test]
fn users_register_once_and_expose_their_role() {
    let mut users = UserStore::new();
    let alice = String::from("user-principal-1");
    assert!(matches!(
        users.get_user_role(&alice),
        Err(IrisError::NotFound)
    ));
    let profile = users.register_user(&alice, UserRole::Merchant, 5).unwrap();
    assert_eq!(profile.role, UserRole::Merchant);
    assert_eq!(profile.created_at, 5);
    let r = users.register_user(&alice, UserRole::Customer, 6);
    assert!(matches!(r, Err(IrisError::AlreadyRegistered)));
    assert_eq!(users.get_user_role(&alice), Ok(UserRole::Merchant));
    assert_eq!(users.get_user_profile(&alice).unwrap().role, UserRole::Merchant);
}

#[test]
fn static_payment_log_groups_invoices_by_address() {
    let mut log = StaticPaymentLog::new();
    let addr_a = String::from("address-a");
    let addr_b = String::from("address-b");
    assert!(log.get_payments_for_address(&addr_a).is_empty());
    log.track_payment_to_static_address(&addr_a, String::from("INV-000001"));
    log.track_payment_to_static_address(&addr_b, String::from("INV-000002"));
    log.track_payment_to_static_address(&addr_a, String::from("INV-000003"));
    assert_eq!(
        log.get_payments_for_address(&addr_a),
        vec![String::from("INV-000001"), String::from("INV-000003")]
    );
    assert_eq!(
        log.get_payments_for_address(&addr_b),
        vec![String::from("INV-000002")]
    );
}

#[test]
fn payment_methods_are_listed_in_fixed_order() {
    let methods = get_payment_methods();
    assert_eq!(
        methods,
        vec![
            PaymentMethod::VirtualWallet,
            PaymentMethod::PlugWallet,
            PaymentMethod::MockUSD,
            PaymentMethod::ExternalWallet,
        ]
    );
}

#[test]
fn pagination_defaults_to_the_first_page_of_ten() {
    let params = <iris_backend::types::PaginationParams as Default>::default();
    assert_eq!(params.offset, 0);
    assert_eq!(params.limit, 10);
    let page = iris_backend::types::PaginatedResponse::new(vec![1u64, 2, 3], 3, 0, 10);
    assert_eq!(page.data, vec![1, 2, 3]);
    assert_eq!(page.total, 3);
}
