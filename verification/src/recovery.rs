//! The decisions of the recovery worker, which periodically looks at
//! payments left pending and settles those the bank has authorized.
use vstd::prelude::*;
use crate::bank::types::AuthStatus;
use crate::payment::PaymentStatus;
use crate::repository::{PaymentRow, StatusUpdate};
use crate::text::str_eq;

verus! {

/// How to ask the bank about a stuck payment.
pub enum RecoveryProbe {
    /// By the bank authorization the payment records.
    ByAuthorization(String),
    /// By the idempotency key the authorization was requested under, when the
    /// payment records no authorization (the gateway never heard back).
    ByIdempotencyKey(String),
}

/// How to ask the bank about a stuck payment: by its recorded authorization
/// if it has one, else by the idempotency key its authorization was sent
/// under, which the bank keeps with the authorization it made.
pub fn recovery_probe(payment: &PaymentRow) -> (r: RecoveryProbe)
    ensures
        match payment.bank_auth_id {
            Some(a) => r is ByAuthorization && r->ByAuthorization_0@ == a@,
            None => r is ByIdempotencyKey && r->ByIdempotencyKey_0@ == payment.idempotency_key@,
        },
{
    match &payment.bank_auth_id {
        Some(a) => RecoveryProbe::ByAuthorization(a.clone()),
        None => RecoveryProbe::ByIdempotencyKey(payment.idempotency_key.clone()),
    }
}

/// Given the bank's report on a stuck payment's authorization: if the bank
/// says "authorized", move the payment from pending to authorized on the
/// worker's behalf, recording the reported authorization id (a recorded one
/// is kept); otherwise leave it.
pub fn recovery_update(payment_id: String, report: &AuthStatus) -> (r: Option<StatusUpdate>)
    ensures
        if report.status@ == "authorized"@ {
            r is Some && r->0.payment_id@ == payment_id@ && r->0.from == PaymentStatus::Pending
                && r->0.to == PaymentStatus::Authorized && r->0.bank_id is Some
                && r->0.bank_id->0@ == report.auth_id@ && r->0.actor@ == "worker"@
        } else {
            r is None
        },
{
    if str_eq(report.status.as_str(), "authorized") {
        Some(
            StatusUpdate {
                payment_id,
                from: PaymentStatus::Pending,
                to: PaymentStatus::Authorized,
                bank_id: Some(report.auth_id.clone()),
                actor: "worker",
            },
        )
    } else {
        None
    }
}

} // verus!
