//! What the gateway stores of a payment, and the status updates it asks the
//! store to make.
use vstd::prelude::*;
use crate::payment::PaymentStatus;

verus! {

/// A stored payment. Times are milliseconds since the Unix epoch.
#[derive(Debug, Clone)]
pub struct PaymentRow {
    pub id: String,
    pub idempotency_key: String,
    pub order_id: String,
    pub customer_id: String,
    pub amount_cents: i64,
    pub currency: String,
    pub status: PaymentStatus,
    pub bank_auth_id: Option<String>,
    pub bank_capture_id: Option<String>,
    pub bank_void_id: Option<String>,
    pub bank_refund_id: Option<String>,
    pub created_at: i64,
    pub updated_at: i64,
}

/// A compare-and-set of a payment's status: it applies only while the
/// payment is still in `from`, records the bank's id for the new status if
/// none is recorded yet, and appends an audit event by `actor`.
#[derive(Debug, Clone)]
pub struct StatusUpdate {
    pub payment_id: String,
    pub from: PaymentStatus,
    pub to: PaymentStatus,
    pub bank_id: Option<String>,
    pub actor: &'static str,
}

} // verus!
