use vstd::prelude::*;

verus! {

/// A payment, as the daemon reported it when the event was emitted.
#[derive(Debug, Clone, PartialEq, Eq)]
pub struct PaymentEvent {
    pub id: String,
    pub payment_type: String,
    pub is_live: bool,
    pub amount_msat: i64,
    pub fee_msat: i64,
    pub description: String,
    pub status: String,
    pub ln_address: Option<String>,
    pub created_at: i64,
}

/// The running balance of the daemon.
#[derive(Debug, Clone, PartialEq, Eq)]
pub struct BalanceEvent {
    pub amount_msat: u64,
}

/// A status transition of an earlier payment.
#[derive(Debug, Clone, PartialEq, Eq)]
pub struct UpdateEvent {
    pub id: String,
    pub status: String,
}

/// A state change that a daemon pushes to a connection.
#[derive(Debug, Clone, PartialEq, Eq)]
pub enum Event {
    Payment(PaymentEvent),
    Balance(BalanceEvent),
    Update(UpdateEvent),
}

} // verus!
