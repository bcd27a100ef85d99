//! The messages of the mock bank's API.
use vstd::prelude::*;
use crate::common::CardDetails;

verus! {

/// A request to hold an amount on a card.
#[derive(Debug, Clone)]
pub struct AuthorizeRequest {
    pub amount_cents: i64,
    pub currency: String,
    pub card: CardDetails,
}

/// A request to collect (part of) an authorized amount.
#[derive(Debug, Clone)]
pub struct CaptureRequest {
    pub auth_id: String,
    pub amount_cents: i64,
}

/// A request to release an authorization.
#[derive(Debug, Clone)]
pub struct VoidRequest {
    pub auth_id: String,
}

/// A request to return (part of) a captured amount.
#[derive(Debug, Clone)]
pub struct RefundRequest {
    pub capture_id: String,
    pub amount_cents: i64,
}

/// What a successful operation answers: the id the bank gave it and the
/// status it left the transaction in.
pub struct ReceiptView {
    pub id: Seq<char>,
    pub status: Seq<char>,
}

/// The answer to an authorization.
#[derive(Debug)]
pub struct AuthorizeResponse {
    pub auth_id: String,
    pub status: String,
}

/// The answer to a capture.
#[derive(Debug)]
pub struct CaptureResponse {
    pub capture_id: String,
    pub status: String,
}

/// The answer to a void.
#[derive(Debug)]
pub struct VoidResponse {
    pub void_id: String,
    pub status: String,
}

/// The answer to a refund.
#[derive(Debug)]
pub struct RefundResponse {
    pub refund_id: String,
    pub status: String,
}

impl View for AuthorizeResponse {
    type V = ReceiptView;

    open spec fn view(&self) -> ReceiptView {
        ReceiptView { id: self.auth_id@, status: self.status@ }
    }
}

impl View for CaptureResponse {
    type V = ReceiptView;

    open spec fn view(&self) -> ReceiptView {
        ReceiptView { id: self.capture_id@, status: self.status@ }
    }
}

impl View for VoidResponse {
    type V = ReceiptView;

    open spec fn view(&self) -> ReceiptView {
        ReceiptView { id: self.void_id@, status: self.status@ }
    }
}

impl View for RefundResponse {
    type V = ReceiptView;

    open spec fn view(&self) -> ReceiptView {
        ReceiptView { id: self.refund_id@, status: self.status@ }
    }
}

/// What the bank reports of an authorization: its id and the status of its
/// transaction.
#[derive(Debug)]
pub struct AuthStatusResponse {
    pub auth_id: String,
    pub status: String,
}

impl View for AuthStatusResponse {
    type V = ReceiptView;

    open spec fn view(&self) -> ReceiptView {
        ReceiptView { id: self.auth_id@, status: self.status@ }
    }
}

/// The body of a refusal: `{"error": error, "code": code}`.
#[derive(Debug)]
pub struct BankErrorResponse {
    pub error: String,
    pub code: String,
}

} // verus!
