//! Status and role enumerations, and the invoice status transition relation.

use vstd::prelude::*;

verus! {

/// The lifecycle state of an invoice's payment.
#[derive(Clone, Copy, Debug, PartialEq, Eq, Structural)]
pub enum PaymentStatus {
    Pending,
    Confirmed,
    Completed,
    Failed,
}

/// The four legal edges of the invoice status graph:
/// `Pending -> Confirmed`, `Pending -> Failed`,
/// `Confirmed -> Completed`, `Confirmed -> Failed`.
/// Every other pair, including staying in place, is illegal.
pub open spec fn valid_transition(from: PaymentStatus, to: PaymentStatus) -> bool {
    match (from, to) {
        (PaymentStatus::Pending, PaymentStatus::Confirmed) => true,
        (PaymentStatus::Pending, PaymentStatus::Failed) => true,
        (PaymentStatus::Confirmed, PaymentStatus::Completed) => true,
        (PaymentStatus::Confirmed, PaymentStatus::Failed) => true,
        _ => false,
    }
}

/// A measure that strictly increases along every legal transition,
/// which is what makes the transition graph a DAG.
pub open spec fn status_rank(s: PaymentStatus) -> int {
    match s {
        PaymentStatus::Pending => 0,
        PaymentStatus::Confirmed => 1,
        PaymentStatus::Completed => 2,
        PaymentStatus::Failed => 3,
    }
}

/// Invoice statuses only ever move forward: every legal transition strictly
/// increases the rank, so no sequence of legal transitions revisits a status,
/// and `Completed` and `Failed` are terminal.
pub proof fn lemma_status_moves_forward(from: PaymentStatus, to: PaymentStatus)
    requires
        valid_transition(from, to),
    ensures
        status_rank(from) < status_rank(to),
        from != to,
        !(valid_transition(PaymentStatus::Completed, to)),
        !(valid_transition(PaymentStatus::Failed, to)),
{
}

impl PaymentStatus {
    /// Whether the step from `self` to `to` is one of the four legal edges.
    pub fn can_transition_to(&self, to: PaymentStatus) -> (r: bool)
        ensures
            r == valid_transition(*self, to),
    {
        match (*self, to) {
            (PaymentStatus::Pending, PaymentStatus::Confirmed) => true,
            (PaymentStatus::Pending, PaymentStatus::Failed) => true,
            (PaymentStatus::Confirmed, PaymentStatus::Completed) => true,
            (PaymentStatus::Confirmed, PaymentStatus::Failed) => true,
            _ => false,
        }
    }

    /// The name of the variant, as debug output would print it.
    pub fn name(&self) -> (r: String)
        ensures
            r@ == self.name_spec(),
    {
        match self {
            PaymentStatus::Pending => String::from_str("Pending"),
            PaymentStatus::Confirmed => String::from_str("Confirmed"),
            PaymentStatus::Completed => String::from_str("Completed"),
            PaymentStatus::Failed => String::from_str("Failed"),
        }
    }

    /// The fixed name of each variant.
    pub open spec fn name_spec(self) -> Seq<char> {
        match self {
            PaymentStatus::Pending => "Pending"@,
            PaymentStatus::Confirmed => "Confirmed"@,
            PaymentStatus::Completed => "Completed"@,
            PaymentStatus::Failed => "Failed"@,
        }
    }
}

/// The lifecycle state of a cashout request.
#[derive(Clone, Copy, Debug, PartialEq, Eq, Structural)]
pub enum CashoutStatus {
    Pending,
    Processing,
    Completed,
    Failed,
}

/// Summary state of an invoice as shown to customers.
#[derive(Clone, Copy, Debug, PartialEq, Eq, Structural)]
pub enum InvoiceStatus {
    Pending,
    Paid,
    Expired,
}

/// The role a registered user acts in.
#[derive(Clone, Copy, Debug, PartialEq, Eq, Structural)]
pub enum UserRole {
    Customer,
    Merchant,
}

/// How a customer chooses to settle an invoice.
#[derive(Clone, Copy, Debug, PartialEq, Eq, Structural)]
pub enum PaymentMethod {
    VirtualWallet,
    PlugWallet,
    MockUSD,
    ExternalWallet,
}

} // verus!
