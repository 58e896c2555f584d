//! Merchant registration, profiles, and the dashboard summary.

use vstd::prelude::*;
use crate::bitcoin::{spec_static_address, BitcoinService};
use crate::currency::{spec_satoshi_to_fiat, Currency, ExchangeService};
use crate::constants::MAX_SATOSHI_SUPPLY;
use crate::enums::PaymentStatus;
use crate::errors::IrisError;
use crate::invoice::{spec_filter_merchant, Invoice, InvoiceService};
use crate::ledger::MerchantBalance;
use crate::qr::{QRCodeData, QRCodeRequest, QRService};
use crate::store::{Keyed, KeyedVec};

verus! {

/// A registered merchant: identity, display name, and the stable receiving
/// address derived at registration.
#[derive(Debug)]
pub struct MerchantProfile {
    pub merchant_id: String,
    pub business_name: String,
    pub created_at: u64,
    pub total_invoices: u64,
    pub static_bitcoin_address: String,
}

impl Clone for MerchantProfile {
    fn clone(&self) -> (r: Self)
        ensures
            r == *self,
    {
        MerchantProfile {
            merchant_id: self.merchant_id.clone(),
            business_name: self.business_name.clone(),
            created_at: self.created_at,
            total_invoices: self.total_invoices,
            static_bitcoin_address: self.static_bitcoin_address.clone(),
        }
    }
}

impl Keyed for MerchantProfile {
    open spec fn key(&self) -> Seq<char> {
        self.merchant_id@
    }

    fn key_eq(&self, key: &String) -> (r: bool)
        ensures
            r == (self.key() == key@),
    {
        self.merchant_id == *key
    }
}

/// One merchant's summary numbers.
#[derive(Debug)]
pub struct MerchantDashboard {
    pub total_invoices: u64,
    pub pending_payments: u64,
    pub completed_payments: u64,
    pub total_balance_satoshi: u64,
    pub total_balance_fiat: u64,
    pub preferred_currency: Currency,
}

/// Invoices still in flight: `Pending` or `Confirmed`.
pub open spec fn spec_count_open(s: Seq<Invoice>) -> nat
    decreases s.len(),
{
    if s.len() == 0 {
        0
    } else {
        spec_count_open(s.drop_last()) + if s.last().status is Pending || s.last().status
            is Confirmed {
            1nat
        } else {
            0nat
        }
    }
}

/// Invoices that reached `Completed`.
pub open spec fn spec_count_completed(s: Seq<Invoice>) -> nat
    decreases s.len(),
{
    if s.len() == 0 {
        0
    } else {
        spec_count_completed(s.drop_last()) + if s.last().status is Completed {
            1nat
        } else {
            0nat
        }
    }
}

/// The keyed store of merchant profiles.
pub struct MerchantStore {
    pub profiles: KeyedVec<MerchantProfile>,
}

impl MerchantStore {
    /// Keys are pairwise distinct.
    pub open spec fn wf(self) -> bool {
        self.profiles.wf()
    }

    /// The profile of merchant `m`, if one exists.
    pub open spec fn spec_get(self, m: Seq<char>) -> Option<MerchantProfile> {
        self.profiles.spec_get(m)
    }

    /// Whether merchant `m` is registered.
    pub open spec fn contains(self, m: Seq<char>) -> bool {
        self.profiles.contains_key(m)
    }

    /// An empty registry.
    pub fn new() -> (r: Self)
        ensures
            r.wf(),
            r.profiles.items@ == Seq::<MerchantProfile>::empty(),
            forall|k: Seq<char>| r.spec_get(k) is None,
    {
        MerchantStore { profiles: KeyedVec::new() }
    }

    /// Registers a merchant once: derives the stable receiving address from
    /// the principal bytes and stores a fresh profile.  Registering the
    /// same identity again fails with `AlreadyRegistered` and changes
    /// nothing.
    pub fn register_merchant(
        &mut self,
        merchant_id: &String,
        principal_bytes: &Vec<u8>,
        business_name: String,
        now: u64,
    ) -> (r: Result<MerchantProfile, IrisError>)
        requires
            old(self).wf(),
        ensures
            final(self).wf(),
            r is Ok <==> !old(self).contains(merchant_id@),
            r is Err ==> r == Err::<MerchantProfile, _>(IrisError::AlreadyRegistered)
                && final(self).profiles.items@ == old(self).profiles.items@,
            r matches Ok(p) ==> p.merchant_id == *merchant_id && p.business_name == business_name
                && p.created_at == now && p.total_invoices == 0 && p.static_bitcoin_address@
                == spec_static_address(principal_bytes@) && final(self).profiles.items@ == old(
                self,
            ).profiles.items@.push(p) && final(self).spec_get(merchant_id@) == Some(p),
            forall|k: Seq<char>|
                k != merchant_id@ ==> final(self).spec_get(k) == old(self).spec_get(k),
    {
        match self.profiles.index_of(merchant_id) {
            Some(_) => Err(IrisError::AlreadyRegistered),
            None => {
                let address = BitcoinService::generate_static_address(principal_bytes);
                let profile = MerchantProfile {
                    merchant_id: merchant_id.clone(),
                    business_name,
                    created_at: now,
                    total_invoices: 0,
                    static_bitcoin_address: address,
                };
                let copy = profile.clone();
                self.profiles.push_item(profile);
                Ok(copy)
            },
        }
    }

    /// The merchant's profile; `NotFound` when it was never registered.
    pub fn get_merchant_profile(&self, merchant_id: &String) -> (r: Result<
        MerchantProfile,
        IrisError,
    >)
        requires
            self.wf(),
        ensures
            r matches Ok(p) ==> self.spec_get(merchant_id@) == Some(p),
            r is Err <==> !self.contains(merchant_id@),
            r is Err ==> r == Err::<MerchantProfile, _>(IrisError::NotFound),
    {
        match self.profiles.get(merchant_id) {
            Some(p) => Ok(p.clone()),
            None => Err(IrisError::NotFound),
        }
    }

    /// Counts one more issued invoice on the merchant's profile.
    pub fn increment_invoices(&mut self, merchant_id: &String)
        requires
            old(self).wf(),
            old(self).spec_get(merchant_id@) matches Some(p) ==> p.total_invoices < u64::MAX,
        ensures
            final(self).wf(),
            old(self).spec_get(merchant_id@) matches Some(p) ==> final(self).spec_get(
                merchant_id@,
            ) == Some(MerchantProfile { total_invoices: (p.total_invoices + 1) as u64, ..p }),
            old(self).spec_get(merchant_id@) is None ==> final(self).profiles.items@ == old(
                self,
            ).profiles.items@,
            forall|k: Seq<char>|
                k != merchant_id@ ==> final(self).spec_get(k) == old(self).spec_get(k),
    {
        match self.profiles.index_of(merchant_id) {
            Some(i) => {
                let mut p = self.profiles.items[i].clone();
                p.total_invoices = p.total_invoices + 1;
                self.profiles.set_item(i, p);
            },
            None => {},
        }
    }
}

/// Assembles the dashboard: the profile's invoice count, the in-flight and
/// completed invoice tallies over the merchant's own invoices, and the
/// total balance quoted in the preferred currency at the fixed rate.
pub fn get_merchant_dashboard(
    profile: &MerchantProfile,
    balance: &MerchantBalance,
    all_invoices: &Vec<Invoice>,
) -> (r: MerchantDashboard)
    requires
        balance.total_satoshi <= MAX_SATOSHI_SUPPLY,
    ensures
        r.total_invoices == profile.total_invoices,
        r.pending_payments == spec_count_open(
            spec_filter_merchant(all_invoices@, profile.merchant_id@),
        ),
        r.completed_payments == spec_count_completed(
            spec_filter_merchant(all_invoices@, profile.merchant_id@),
        ),
        r.total_balance_satoshi == balance.total_satoshi,
        r.total_balance_fiat == spec_satoshi_to_fiat(
            balance.total_satoshi as int,
            balance.preferred_currency,
        ),
        r.preferred_currency == balance.preferred_currency,
{
    let mine = InvoiceService::filter_merchant_invoices(all_invoices, &profile.merchant_id);
    let mut pending_payments: u64 = 0;
    let mut completed_payments: u64 = 0;
    let mut i: usize = 0;
    while i < mine.len()
        invariant
            i <= mine@.len(),
            pending_payments == spec_count_open(mine@.take(i as int)),
            completed_payments == spec_count_completed(mine@.take(i as int)),
            pending_payments <= i,
            completed_payments <= i,
        decreases mine@.len() - i,
    {
        proof {
            assert(mine@.take(i + 1).drop_last() =~= mine@.take(i as int));
        }
        let status = mine[i].status;
        if matches!(status, PaymentStatus::Pending | PaymentStatus::Confirmed) {
            pending_payments = pending_payments + 1;
        }
        if matches!(status, PaymentStatus::Completed) {
            completed_payments = completed_payments + 1;
        }
        i = i + 1;
    }
    proof {
        assert(mine@.take(mine@.len() as int) =~= mine@);
    }
    let total_balance_fiat = ExchangeService::satoshi_to_fiat(
        balance.total_satoshi,
        &balance.preferred_currency,
    );
    MerchantDashboard {
        total_invoices: profile.total_invoices,
        pending_payments,
        completed_payments,
        total_balance_satoshi: balance.total_satoshi,
        total_balance_fiat,
        preferred_currency: balance.preferred_currency,
    }
}

/// The label of a merchant's static QR before the business name replaces
/// it.
pub open spec fn spec_static_label(merchant_id: Seq<char>) -> Seq<char> {
    "STATIC-"@ + merchant_id
}

/// Builds the merchant's static QR payload: the stable receiving address
/// with no amount, labelled with the business name.
pub fn get_merchant_static_qr(profile: &MerchantProfile) -> (r: QRCodeData)
    ensures
        r.bitcoin_address == profile.static_bitcoin_address,
        r.invoice_id == profile.business_name,
        r.amount_satoshi == 0,
        r.qr_code_svg@ == crate::qr::spec_qr_svg(profile.static_bitcoin_address@),
        r.bitcoin_uri@ == crate::qr::spec_bitcoin_uri(
            QRCodeRequest {
                address: profile.static_bitcoin_address,
                amount_satoshi: 0,
                label: profile.business_name,
                message: None,
            },
        ),
{
    let mut label = String::from_str("STATIC-");
    label.append(profile.merchant_id.as_str());
    let request = QRCodeRequest::new(profile.static_bitcoin_address.clone(), 0, label)
        .with_label(profile.business_name.clone());
    QRService::generate_qr_code(request)
}

} // verus!
