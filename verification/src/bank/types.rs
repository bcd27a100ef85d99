//! The messages the gateway exchanges with the bank.
use vstd::prelude::*;
use crate::common::CardDetails;

verus! {

/// Asks the bank to hold an amount on a card.
#[derive(Debug, Clone)]
pub struct AuthorizeRequest {
    pub amount_cents: i64,
    pub currency: String,
    pub card: CardDetails,
}

/// The bank's answer to an authorization.
#[derive(Debug, Clone)]
pub struct BankAuthResponse {
    pub auth_id: String,
    pub status: String,
}

/// Asks the bank to collect (part of) an authorized amount.
#[derive(Debug, Clone)]
pub struct CaptureRequest {
    pub auth_id: String,
    pub amount_cents: i64,
}

/// The bank's answer to a capture.
#[derive(Debug, Clone)]
pub struct BankCaptureResponse {
    pub capture_id: String,
    pub status: String,
}

/// Asks the bank to release an authorization.
#[derive(Debug, Clone)]
pub struct VoidRequest {
    pub auth_id: String,
}

/// The bank's answer to a void.
#[derive(Debug, Clone)]
pub struct BankVoidResponse {
    pub void_id: String,
    pub status: String,
}

/// Asks the bank to return (part of) a captured amount.
#[derive(Debug, Clone)]
pub struct RefundRequest {
    pub capture_id: String,
    pub amount_cents: i64,
}

/// The bank's answer to a refund.
#[derive(Debug, Clone)]
pub struct BankRefundResponse {
    pub refund_id: String,
    pub status: String,
}

/// What the bank currently knows of an authorization.
#[derive(Debug, Clone)]
pub struct AuthStatus {
    pub auth_id: String,
    pub status: String,
}

} // verus!
