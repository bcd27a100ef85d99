//! Idempotent handling of client requests: reading the idempotency key and
//! merchant from a request, and deciding what an earlier request under the
//! same key means for a new one.
use vstd::prelude::*;
use crate::errors::{AppError, AppErrorView};

verus! {

/// The client's idempotency key of a request.
pub struct IdempotencyKey(pub String);

/// The merchant a request is made for; keys are scoped per merchant.
pub struct MerchantId(pub String);

impl IdempotencyKey {
    /// Takes the key from the `Idempotency-Key` header (given as text when it
    /// is present and readable); refuses the request without one.
    pub fn from_header(header: Option<String>) -> (r: Result<IdempotencyKey, AppError>)
        ensures
            match header {
                Some(h) => r matches Ok(k) && k.0@ == h@,
                None => r matches Err(e) && e@ == AppErrorView::MissingIdempotencyKey,
            },
    {
        match header {
            Some(h) => Ok(IdempotencyKey(h)),
            None => Err(AppError::MissingIdempotencyKey),
        }
    }
}

impl MerchantId {
    /// Takes the merchant from the `X-Merchant-Id` header (given as text when
    /// it is present and readable); a request without one is an internal
    /// error.
    pub fn from_header(header: Option<String>) -> (r: Result<MerchantId, AppError>)
        ensures
            match header {
                Some(h) => r matches Ok(m) && m.0@ == h@,
                None => r matches Err(e) && e@ == AppErrorView::Internal(
                    "Missing X-Merchant-Id header"@,
                ),
            },
    {
        match header {
            Some(h) => Ok(MerchantId(h)),
            None => Err(AppError::Internal(String::from_str("Missing X-Merchant-Id header"))),
        }
    }
}

/// Whether a request under a key is still being processed or has finished.
#[derive(Debug, Clone, Copy, PartialEq, Eq, Structural)]
pub enum IdempotencyStatus {
    InFlight,
    Complete,
}

/// The stored record of a request made under an idempotency key: its
/// fingerprint and, once complete, the answer that was given (as JSON text).
#[derive(Debug, Clone)]
pub struct IdempotencyRequest {
    pub key: String,
    pub merchant_id: String,
    pub request_hash: String,
    pub response_status: Option<i32>,
    pub response_body: Option<String>,
    pub status: IdempotencyStatus,
}

/// What to do with a request, given the record of an earlier one under its key.
pub enum IdempotencyOutcome {
    /// No earlier request: process this one.
    Proceed,
    /// The same request already finished: answer again with this HTTP status
    /// and JSON body.
    Replay { status: i32, body: String },
}

/// What is decided for a request, given the record of an earlier one.
pub enum IdempotencyView {
    Proceed,
    Replay { status: i32, body: Seq<char> },
    Refuse(AppErrorView),
}

/// The status a finished request is replayed with: the stored one, or 200
/// when none was stored.
pub open spec fn replay_status(r: IdempotencyRequest) -> i32 {
    match r.response_status {
        Some(s) => s,
        None => 200,
    }
}

/// The body a finished request is replayed with: the stored one, or an empty
/// JSON object when none was stored.
pub open spec fn replay_body(r: IdempotencyRequest) -> Seq<char> {
    match r.response_body {
        Some(b) => b@,
        None => "{}"@,
    }
}

/// The decision for a request with fingerprint `hash`, given the stored
/// record under its key: a request not seen before proceeds; one with
/// another fingerprint is a conflict; the same request is replayed once it
/// has finished and refused while it is still in flight.
pub open spec fn idempotency_outcome(existing: Option<IdempotencyRequest>, hash: Seq<char>) -> IdempotencyView {
    match existing {
        None => IdempotencyView::Proceed,
        Some(rec) => if rec.request_hash@ != hash {
            IdempotencyView::Refuse(AppErrorView::IdempotencyKeyConflict)
        } else if rec.status == IdempotencyStatus::Complete {
            IdempotencyView::Replay { status: replay_status(rec), body: replay_body(rec) }
        } else {
            IdempotencyView::Refuse(AppErrorView::IdempotencyInFlight)
        },
    }
}

/// The decision a result of `check_idempotency` stands for.
pub open spec fn outcome_view(r: Result<IdempotencyOutcome, AppError>) -> IdempotencyView {
    match r {
        Ok(IdempotencyOutcome::Proceed) => IdempotencyView::Proceed,
        Ok(IdempotencyOutcome::Replay { status, body }) => IdempotencyView::Replay {
            status,
            body: body@,
        },
        Err(e) => IdempotencyView::Refuse(e@),
    }
}

/// Decides what a request with fingerprint `hash` is answered with, given
/// the stored record under its key.
pub fn check_idempotency(existing: Option<IdempotencyRequest>, hash: &String) -> (r: Result<
    IdempotencyOutcome,
    AppError,
>)
    ensures
        outcome_view(r) == idempotency_outcome(existing, hash@),
{
    match existing {
        None => Ok(IdempotencyOutcome::Proceed),
        Some(rec) => {
            if rec.request_hash != *hash {
                Err(AppError::IdempotencyKeyConflict)
            } else if rec.status == IdempotencyStatus::Complete {
                let status = match rec.response_status {
                    Some(s) => s,
                    None => 200,
                };
                match rec.response_body {
                    Some(body) => Ok(IdempotencyOutcome::Replay { status, body }),
                    None => Ok(IdempotencyOutcome::Replay { status, body: String::from_str("{}") }),
                }
            } else {
                Err(AppError::IdempotencyInFlight)
            }
        },
    }
}

/// A request completed with an answer (a status and a body) is answered
/// again with exactly that answer when it is sent again under its key; while
/// it is in flight it is refused, and another request under its key is a
/// conflict.
pub proof fn law_completed_request_is_replayed(
    rec: IdempotencyRequest,
    hash: Seq<char>,
    status: i32,
    body: Seq<char>,
)
    requires
        rec.request_hash@ == hash,
    ensures
        rec.status == IdempotencyStatus::Complete && rec.response_status == Some(status)
            && rec.response_body is Some && rec.response_body->0@ == body ==> idempotency_outcome(
            Some(rec),
            hash,
        ) == (IdempotencyView::Replay { status, body }),
        rec.status == IdempotencyStatus::InFlight ==> idempotency_outcome(Some(rec), hash)
            == IdempotencyView::Refuse(AppErrorView::IdempotencyInFlight),
        forall|other: Seq<char>|
            other != hash ==> #[trigger] idempotency_outcome(Some(rec), other)
                == IdempotencyView::Refuse(AppErrorView::IdempotencyKeyConflict),
{
}

} // verus!
