//! The decisions of the gateway's payment endpoints. Each endpoint alternates
//! storage and bank calls, made by its caller, with the decisions below:
//! whether an earlier request under the same idempotency key answers this
//! one, what to ask the bank, and what to store and answer once the bank has
//! replied. Every answer given after a bank call is stored with the key, so
//! that the same request sent again is answered the same way.
use vstd::prelude::*;
use crate::bank::{BankError, is_transient, bank_error_text};
use crate::bank::types::{AuthorizeRequest, BankAuthResponse, BankCaptureResponse, CaptureRequest};
use crate::common::CardDetails;
use crate::errors::{AppError, AppErrorView, error_status};
use crate::idempotency::{
    IdempotencyOutcome, IdempotencyRequest, IdempotencyStatus, IdempotencyView,
    check_idempotency, idempotency_outcome,
};
use crate::payment::{PaymentEvent, PaymentStatus, next_status, status_text};
use crate::repository::{PaymentRow, StatusUpdate};

verus! {

/// A client's request to authorize a payment.
#[derive(Debug, Clone)]
pub struct CreatePaymentRequest {
    pub order_id: String,
    pub customer_id: String,
    pub amount_cents: i64,
    pub currency: String,
    pub card: CardDetails,
}

/// The answer to a successful authorization or capture:
/// `{"id": id, "status": status}`.
#[derive(Debug, Clone)]
pub struct PaymentResponse {
    pub id: String,
    pub status: String,
}

/// What a payment lookup answers with.
#[derive(Debug, Clone)]
pub struct PaymentSummary {
    pub id: String,
    pub status: PaymentStatus,
    pub amount_cents: i64,
    pub currency: String,
    pub order_id: String,
}

/// What to store and answer after the bank replied: the status update to
/// make (none when the bank declined), and the answer, with its HTTP status,
/// that is given to the client and stored with the idempotency key.
pub struct Commit {
    pub update: Option<StatusUpdate>,
    pub response_status: i32,
    pub response: Result<PaymentResponse, AppError>,
}

/// A commit made on a client's behalf: payment `payment_id` moves from
/// `from` to `to` recording the bank's id `bank_id`, and the client is
/// answered 200 with the payment's id and new status.
pub open spec fn client_commit(
    c: Commit,
    payment_id: Seq<char>,
    from: PaymentStatus,
    to: PaymentStatus,
    bank_id: Seq<char>,
) -> bool {
    &&& c.update is Some
    &&& c.update->0.payment_id@ == payment_id
    &&& c.update->0.from == from
    &&& c.update->0.to == to
    &&& c.update->0.bank_id is Some
    &&& c.update->0.bank_id->0@ == bank_id
    &&& c.update->0.actor@ == "client"@
    &&& c.response is Ok
    &&& c.response->Ok_0.id@ == payment_id
    &&& c.response->Ok_0.status@ == status_text(to)
    &&& c.response_status == 200
}

/// The answer given when the bank refused or failed an operation.
pub open spec fn declined(e: BankError) -> AppErrorView {
    AppErrorView::BankDeclined { reason: bank_error_text(e@), retryable: is_transient(e@) }
}

/// A commit after the bank declined: nothing is updated, and the client is
/// answered (and the answer stored) with the decline, status 402.
pub open spec fn declined_commit(c: Commit, e: BankError) -> bool {
    &&& c.update is None
    &&& c.response is Err
    &&& c.response->Err_0@ == declined(e)
    &&& c.response_status == error_status(declined(e))
    &&& c.response_status == 402
}

/// Turns a bank failure into the commit that records the decline.
fn decline(e: BankError) -> (c: Commit)
    ensures
        declined_commit(c, e),
{
    Commit {
        update: None,
        response_status: 402,
        response: Err(AppError::BankDeclined { reason: e.message(), retryable: e.is_retryable() }),
    }
}

/// How an authorization request starts: answered again from its stored
/// answer, or sent on to the bank with this request.
pub enum AuthorizeStart {
    Replay { status: i32, body: String },
    Call(AuthorizeRequest),
}

/// Starts an authorization with fingerprint `hash`, given the stored record
/// under its key: the idempotency decision comes first; a request that
/// proceeds asks the bank for the client's amount, currency and card.
pub fn start_authorize(
    existing: Option<IdempotencyRequest>,
    hash: &String,
    payload: CreatePaymentRequest,
) -> (r: Result<AuthorizeStart, AppError>)
    ensures
        match idempotency_outcome(existing, hash@) {
            IdempotencyView::Proceed => r is Ok && r->Ok_0 is Call && r->Ok_0->Call_0.amount_cents
                == payload.amount_cents && r->Ok_0->Call_0.currency == payload.currency
                && r->Ok_0->Call_0.card == payload.card,
            IdempotencyView::Replay { status, body } => r is Ok && r->Ok_0 is Replay
                && r->Ok_0->Replay_status == status && r->Ok_0->Replay_body@ == body,
            IdempotencyView::Refuse(e) => r is Err && r->Err_0@ == e,
        },
{
    match check_idempotency(existing, hash) {
        Err(e) => Err(e),
        Ok(IdempotencyOutcome::Replay { status, body }) => Ok(AuthorizeStart::Replay { status, body }),
        Ok(IdempotencyOutcome::Proceed) => Ok(
            AuthorizeStart::Call(
                AuthorizeRequest {
                    amount_cents: payload.amount_cents,
                    currency: payload.currency,
                    card: payload.card,
                },
            ),
        ),
    }
}

/// After the bank answered an authorization of the pending payment
/// `payment_id`: on success, move the payment to authorized with the bank's
/// authorization id, and answer `{"id", "status": "authorized"}` with 200;
/// on failure, change nothing and answer that the bank declined.
pub fn finish_authorize(payment_id: String, bank: Result<BankAuthResponse, BankError>) -> (c: Commit)
    ensures
        match bank {
            Ok(res) => client_commit(
                c,
                payment_id@,
                PaymentStatus::Pending,
                PaymentStatus::Authorized,
                res.auth_id@,
            ),
            Err(e) => declined_commit(c, e),
        },
{
    match bank {
        Ok(res) => {
            let event = PaymentEvent::AuthorizationSucceeded { bank_auth_id: res.auth_id.clone() };
            match PaymentStatus::Pending.apply(&event) {
                Ok(to) => {
                    let update = StatusUpdate {
                        payment_id: payment_id.clone(),
                        from: PaymentStatus::Pending,
                        to,
                        bank_id: Some(res.auth_id),
                        actor: "client",
                    };
                    let response = PaymentResponse { id: payment_id, status: to.to_string() };
                    Commit { update: Some(update), response_status: 200, response: Ok(response) }
                },
                Err(_) => {
                    proof {
                        assert(next_status(PaymentStatus::Pending, event) is Some);
                    }
                    vstd::pervasive::unreached()
                },
            }
        },
        Err(e) => decline(e),
    }
}

/// How a capture request starts: answered again from its stored answer, or
/// sent on to the bank with this request.
pub enum CaptureStart {
    Replay { status: i32, body: String },
    Call(CaptureRequest),
}

/// Starts a capture with fingerprint `hash` of a payment, given the stored
/// record under its key: the idempotency decision comes first, so a capture
/// sent again after it finished gets its first answer back. A capture that
/// proceeds is refused for a payment that does not exist or is not
/// authorized; an authorized payment is captured in full under its bank
/// authorization.
pub fn start_capture(
    existing: Option<IdempotencyRequest>,
    hash: &String,
    payment: Option<PaymentRow>,
) -> (r: Result<CaptureStart, AppError>)
    requires
        idempotency_outcome(existing, hash@) is Proceed && payment is Some && payment->0.status
            == PaymentStatus::Authorized ==> payment->0.bank_auth_id is Some,
    ensures
        match idempotency_outcome(existing, hash@) {
            IdempotencyView::Proceed => match payment {
                None => r is Err && r->Err_0@ == AppErrorView::NotFound,
                Some(p) => if p.status != PaymentStatus::Authorized {
                    r is Err && r->Err_0@ == (AppErrorView::InvalidTransition {
                        from: status_text(p.status),
                        operation: "capture"@,
                    })
                } else {
                    r is Ok && r->Ok_0 is Call && r->Ok_0->Call_0.auth_id@
                        == p.bank_auth_id.unwrap()@ && r->Ok_0->Call_0.amount_cents
                        == p.amount_cents
                },
            },
            IdempotencyView::Replay { status, body } => r is Ok && r->Ok_0 is Replay
                && r->Ok_0->Replay_status == status && r->Ok_0->Replay_body@ == body,
            IdempotencyView::Refuse(e) => r is Err && r->Err_0@ == e,
        },
{
    match check_idempotency(existing, hash) {
        Err(e) => Err(e),
        Ok(IdempotencyOutcome::Replay { status, body }) => Ok(CaptureStart::Replay { status, body }),
        Ok(IdempotencyOutcome::Proceed) => match payment {
            None => Err(AppError::NotFound),
            Some(p) => {
                if p.status != PaymentStatus::Authorized {
                    Err(
                        AppError::InvalidTransition {
                            from: p.status.to_string(),
                            operation: String::from_str("capture"),
                        },
                    )
                } else {
                    match p.bank_auth_id {
                        Some(auth_id) => Ok(
                            CaptureStart::Call(CaptureRequest { auth_id, amount_cents: p.amount_cents }),
                        ),
                        None => vstd::pervasive::unreached(),
                    }
                }
            },
        },
    }
}

/// After the bank answered a capture of the authorized payment `payment_id`:
/// on success, move the payment to captured with the bank's capture id and
/// answer `{"id", "status": "captured"}`; on failure, change nothing and
/// answer that the bank declined.
pub fn finish_capture(payment_id: String, bank: Result<BankCaptureResponse, BankError>) -> (c: Commit)
    ensures
        match bank {
            Ok(res) => client_commit(
                c,
                payment_id@,
                PaymentStatus::Authorized,
                PaymentStatus::Captured,
                res.capture_id@,
            ),
            Err(e) => declined_commit(c, e),
        },
{
    match bank {
        Ok(res) => {
            let event = PaymentEvent::CaptureSucceeded { bank_capture_id: res.capture_id.clone() };
            match PaymentStatus::Authorized.apply(&event) {
                Ok(to) => {
                    let update = StatusUpdate {
                        payment_id: payment_id.clone(),
                        from: PaymentStatus::Authorized,
                        to,
                        bank_id: Some(res.capture_id),
                        actor: "client",
                    };
                    let response = PaymentResponse { id: payment_id, status: to.to_string() };
                    Commit { update: Some(update), response_status: 200, response: Ok(response) }
                },
                Err(_) => {
                    proof {
                        assert(next_status(PaymentStatus::Authorized, event) is Some);
                    }
                    vstd::pervasive::unreached()
                },
            }
        },
        Err(e) => decline(e),
    }
}

/// Whether `rec` is the record of the request with fingerprint `hash`,
/// completed with the commit `c`'s answer, stored as the body `body`.
pub open spec fn completed_with(rec: IdempotencyRequest, hash: Seq<char>, c: Commit, body: Seq<char>) -> bool {
    &&& rec.request_hash@ == hash
    &&& rec.status == IdempotencyStatus::Complete
    &&& rec.response_status == Some(c.response_status)
    &&& rec.response_body is Some
    &&& rec.response_body->0@ == body
}

/// Once the answer of a commit is stored with the key, the same request sent
/// again is answered with that answer (its status and body) and does not
/// reach the bank; after a decline that answer is the decline, status 402.
pub proof fn law_committed_answer_is_replayed(
    rec: IdempotencyRequest,
    hash: Seq<char>,
    c: Commit,
    body: Seq<char>,
    bank_error: BankError,
)
    requires
        completed_with(rec, hash, c, body),
    ensures
        idempotency_outcome(Some(rec), hash) == (IdempotencyView::Replay {
            status: c.response_status,
            body,
        }),
        declined_commit(c, bank_error) ==> idempotency_outcome(Some(rec), hash) == (
        IdempotencyView::Replay { status: 402, body }),
{
}

/// A payment lookup: not found, or the payment's id, status, amount,
/// currency and order.
pub fn summarize_payment(payment: Option<PaymentRow>) -> (r: Result<PaymentSummary, AppError>)
    ensures
        match payment {
            None => r matches Err(e) && e@ == AppErrorView::NotFound,
            Some(p) => r matches Ok(s) && s.id == p.id && s.status == p.status && s.amount_cents
                == p.amount_cents && s.currency == p.currency && s.order_id == p.order_id,
        },
{
    match payment {
        None => Err(AppError::NotFound),
        Some(p) => Ok(
            PaymentSummary {
                id: p.id,
                status: p.status,
                amount_cents: p.amount_cents,
                currency: p.currency,
                order_id: p.order_id,
            },
        ),
    }
}

/// Every status update the endpoints ask for is a move the payment state
/// machine allows.
pub proof fn law_endpoint_updates_are_legal(bank_id: String)
    ensures
        next_status(PaymentStatus::Pending, PaymentEvent::AuthorizationSucceeded { bank_auth_id: bank_id })
            == Some(PaymentStatus::Authorized),
        next_status(PaymentStatus::Authorized, PaymentEvent::CaptureSucceeded { bank_capture_id: bank_id })
            == Some(PaymentStatus::Captured),
{
}

} // verus!
