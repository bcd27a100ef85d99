//! The errors the gateway answers its clients with, and the HTTP status,
//! machine-readable code and message each is answered with.
use vstd::prelude::*;

verus! {

/// Why the gateway refused or failed a request.
#[derive(Debug, Clone)]
pub enum AppError {
    MissingIdempotencyKey,
    IdempotencyKeyConflict,
    IdempotencyInFlight,
    NotFound,
    InvalidTransition { from: String, operation: String },
    BankDeclined { reason: String, retryable: bool },
    Internal(String),
}

/// A gateway error with its texts taken as character sequences.
pub enum AppErrorView {
    MissingIdempotencyKey,
    IdempotencyKeyConflict,
    IdempotencyInFlight,
    NotFound,
    InvalidTransition { from: Seq<char>, operation: Seq<char> },
    BankDeclined { reason: Seq<char>, retryable: bool },
    Internal(Seq<char>),
}

impl View for AppError {
    type V = AppErrorView;

    open spec fn view(&self) -> AppErrorView {
        match self {
            AppError::MissingIdempotencyKey => AppErrorView::MissingIdempotencyKey,
            AppError::IdempotencyKeyConflict => AppErrorView::IdempotencyKeyConflict,
            AppError::IdempotencyInFlight => AppErrorView::IdempotencyInFlight,
            AppError::NotFound => AppErrorView::NotFound,
            AppError::InvalidTransition { from, operation } => AppErrorView::InvalidTransition {
                from: from@,
                operation: operation@,
            },
            AppError::BankDeclined { reason, retryable } => AppErrorView::BankDeclined {
                reason: reason@,
                retryable: *retryable,
            },
            AppError::Internal(detail) => AppErrorView::Internal(detail@),
        }
    }
}

/// The HTTP status an error is answered with.
pub open spec fn error_status(e: AppErrorView) -> u16 {
    match e {
        AppErrorView::MissingIdempotencyKey => 400,
        AppErrorView::IdempotencyKeyConflict => 422,
        AppErrorView::IdempotencyInFlight => 409,
        AppErrorView::NotFound => 404,
        AppErrorView::InvalidTransition { .. } => 409,
        AppErrorView::BankDeclined { .. } => 402,
        AppErrorView::Internal(_) => 500,
    }
}

/// The machine-readable code an error is answered with.
pub open spec fn error_code(e: AppErrorView) -> Seq<char> {
    match e {
        AppErrorView::MissingIdempotencyKey => "MISSING_IDEMPOTENCY_KEY"@,
        AppErrorView::IdempotencyKeyConflict => "IDEMPOTENCY_KEY_CONFLICT"@,
        AppErrorView::IdempotencyInFlight => "IDEMPOTENCY_IN_FLIGHT"@,
        AppErrorView::NotFound => "NOT_FOUND"@,
        AppErrorView::InvalidTransition { .. } => "INVALID_TRANSITION"@,
        AppErrorView::BankDeclined { .. } => "BANK_DECLINED"@,
        AppErrorView::Internal(_) => "INTERNAL_ERROR"@,
    }
}

/// The human-readable message of an error; an internal error keeps its
/// detail to itself.
pub open spec fn error_message(e: AppErrorView) -> Seq<char> {
    match e {
        AppErrorView::MissingIdempotencyKey => "missing Idempotency-Key header"@,
        AppErrorView::IdempotencyKeyConflict => "idempotency key reused with different request"@,
        AppErrorView::IdempotencyInFlight => "idempotency key request in flight"@,
        AppErrorView::NotFound => "payment not found"@,
        AppErrorView::InvalidTransition { from, operation } => "cannot "@ + operation
            + " a payment in "@ + from + " status"@,
        AppErrorView::BankDeclined { reason, .. } => "bank declined: "@ + reason,
        AppErrorView::Internal(_) => "internal error"@,
    }
}

/// What an error is answered with: the HTTP status and the JSON body
/// `{"error": {"code": code, "message": message}}`.
pub struct ErrorResponse {
    pub status: u16,
    pub code: &'static str,
    pub message: String,
}

impl AppError {
    /// The HTTP status the error is answered with.
    pub fn status_code(&self) -> (s: u16)
        ensures
            s == error_status(self@),
    {
        match self {
            AppError::MissingIdempotencyKey => 400,
            AppError::IdempotencyKeyConflict => 422,
            AppError::IdempotencyInFlight => 409,
            AppError::NotFound => 404,
            AppError::InvalidTransition { .. } => 409,
            AppError::BankDeclined { .. } => 402,
            AppError::Internal(_) => 500,
        }
    }

    /// The machine-readable code the error is answered with.
    pub fn code(&self) -> (c: &'static str)
        ensures
            c@ == error_code(self@),
    {
        match self {
            AppError::MissingIdempotencyKey => "MISSING_IDEMPOTENCY_KEY",
            AppError::IdempotencyKeyConflict => "IDEMPOTENCY_KEY_CONFLICT",
            AppError::IdempotencyInFlight => "IDEMPOTENCY_IN_FLIGHT",
            AppError::NotFound => "NOT_FOUND",
            AppError::InvalidTransition { .. } => "INVALID_TRANSITION",
            AppError::BankDeclined { .. } => "BANK_DECLINED",
            AppError::Internal(_) => "INTERNAL_ERROR",
        }
    }

    /// The human-readable message of the error.
    pub fn message(&self) -> (m: String)
        ensures
            m@ == error_message(self@),
    {
        match self {
            AppError::MissingIdempotencyKey => String::from_str("missing Idempotency-Key header"),
            AppError::IdempotencyKeyConflict => String::from_str(
                "idempotency key reused with different request",
            ),
            AppError::IdempotencyInFlight => String::from_str("idempotency key request in flight"),
            AppError::NotFound => String::from_str("payment not found"),
            AppError::InvalidTransition { from, operation } => {
                let mut m = String::from_str("cannot ");
                m.append(operation.as_str());
                m.append(" a payment in ");
                m.append(from.as_str());
                m.append(" status");
                m
            },
            AppError::BankDeclined { reason, .. } => {
                let mut m = String::from_str("bank declined: ");
                m.append(reason.as_str());
                m
            },
            AppError::Internal(_) => String::from_str("internal error"),
        }
    }

    /// The answer to send for the error.
    pub fn into_response(self) -> (r: ErrorResponse)
        ensures
            r.status == error_status(self@),
            r.code@ == error_code(self@),
            r.message@ == error_message(self@),
    {
        let status = self.status_code();
        let code = self.code();
        let message = self.message();
        ErrorResponse { status, code, message }
    }
}

} // verus!
