use payment_gateway::bank::types::{AuthStatus, BankAuthResponse, BankCaptureResponse};
use payment_gateway::bank::BankError;
use payment_gateway::common::CardDetails;
use payment_gateway::errors::AppError;
use payment_gateway::idempotency::{
    check_idempotency, IdempotencyKey, IdempotencyOutcome, IdempotencyRequest, IdempotencyStatus,
    MerchantId,
};
use payment_gateway::payment::PaymentStatus;
use payment_gateway::recovery::{recovery_probe, recovery_update, RecoveryProbe};
use payment_gateway::repository::PaymentRow;
use payment_gateway::routes::{
    finish_authorize, finish_capture, start_authorize, start_capture, summarize_payment, AuthorizeStart,
    CaptureStart, CreatePaymentRequest,
};

fn row(status: PaymentStatus, auth: Option<&str>) -> PaymentRow {
    PaymentRow {
        id: "pay_1".to_string(),
        idempotency_key: "idem_1".to_string(),
        order_id: "ord_1".to_string(),
        customer_id: "cust_1".to_string(),
        amount_cents: 15000,
        currency: "USD".to_string(),
        status,
        bank_auth_id: auth.map(|a| a.to_string()),
        bank_capture_id: None,
        bank_void_id: None,
        bank_refund_id: None,
        created_at: 0,
        updated_at: 0,
    }
}

fn record(hash: &str, status: IdempotencyStatus, body: Option<&str>) -> IdempotencyRequest {
    record_with_status(hash, status, Some(200), body)
}

fn record_with_status(hash: &str, status: IdempotencyStatus, code: Option<i32>, body: Option<&str>) -> IdempotencyRequest {
    IdempotencyRequest {
        key: "idem_1".to_string(),
        merchant_id: "merch_1".to_string(),
        request_hash: hash.to_string(),
        response_status: code,
        response_body: body.map(|b| b.to_string()),
        status,
    }
}

#[test]
fn error_answers() {
    let cases: Vec<(AppError, u16, &str, &str)> = vec![
        (AppError::MissingIdempotencyKey, 400, "MISSING_IDEMPOTENCY_KEY", "missing Idempotency-Key header"),
        (AppError::IdempotencyKeyConflict, 422, "IDEMPOTENCY_KEY_CONFLICT", "idempotency key reused with different request"),
        (AppError::IdempotencyInFlight, 409, "IDEMPOTENCY_IN_FLIGHT", "idempotency key request in flight"),
        (AppError::NotFound, 404, "NOT_FOUND", "payment not found"),
        (
            AppError::InvalidTransition { from: "pending".to_string(), operation: "capture".to_string() },
            409,
            "INVALID_TRANSITION",
            "cannot capture a payment in pending status",
        ),
        (
            AppError::BankDeclined { reason: "insufficient funds".to_string(), retryable: false },
            402,
            "BANK_DECLINED",
            "bank declined: insufficient funds",
        ),
        (AppError::Internal("db down".to_string()), 500, "INTERNAL_ERROR", "internal error"),
    ];
    for (e, status, code, message) in cases {
        assert_eq!(e.status_code(), status);
        assert_eq!(e.code(), code);
        assert_eq!(e.message(), message);
        let r = e.into_response();
        assert_eq!((r.status, r.code, r.message.as_str()), (status, code, message));
    }
}

#[test]
fn headers_are_required() {
    assert!(matches!(IdempotencyKey::from_header(None), Err(AppError::MissingIdempotencyKey)));
    assert_eq!(IdempotencyKey::from_header(Some("k".to_string())).ok().unwrap().0, "k");
    match MerchantId::from_header(None) {
        Err(AppError::Internal(detail)) => assert_eq!(detail, "Missing X-Merchant-Id header"),
        _ => panic!("expected an internal error"),
    }
    assert_eq!(MerchantId::from_header(Some("m".to_string())).ok().unwrap().0, "m");
}

#[test]
fn idempotency_decisions() {
    let h = "hash_a".to_string();
    assert!(matches!(check_idempotency(None, &h), Ok(IdempotencyOutcome::Proceed)));
    assert!(matches!(
        check_idempotency(Some(record("hash_b", IdempotencyStatus::Complete, Some("{}"))), &h),
        Err(AppError::IdempotencyKeyConflict)
    ));
    assert!(matches!(
        check_idempotency(Some(record("hash_a", IdempotencyStatus::InFlight, None)), &h),
        Err(AppError::IdempotencyInFlight)
    ));
    match check_idempotency(
        Some(record("hash_a", IdempotencyStatus::Complete, Some(r#"{"id":"p","status":"authorized"}"#))),
        &h,
    ) {
        Ok(IdempotencyOutcome::Replay { status, body }) => {
            assert_eq!(status, 200);
            assert_eq!(body, r#"{"id":"p","status":"authorized"}"#);
        }
        _ => panic!("expected a replay"),
    }
    match check_idempotency(Some(record_with_status("hash_a", IdempotencyStatus::Complete, None, None)), &h) {
        Ok(IdempotencyOutcome::Replay { status, body }) => {
            assert_eq!(status, 200);
            assert_eq!(body, "{}");
        }
        _ => panic!("expected a replay"),
    }
    match check_idempotency(
        Some(record_with_status("hash_a", IdempotencyStatus::Complete, Some(402), Some("{\"error\":1}"))),
        &h,
    ) {
        Ok(IdempotencyOutcome::Replay { status, body }) => {
            assert_eq!(status, 402);
            assert_eq!(body, "{\"error\":1}");
        }
        _ => panic!("expected a replay"),
    }
}

fn payload() -> CreatePaymentRequest {
    CreatePaymentRequest {
        order_id: "ord_1".to_string(),
        customer_id: "cust_1".to_string(),
        amount_cents: 15000,
        currency: "USD".to_string(),
        card: CardDetails { number: "4111111111111111".to_string(), exp_month: 12, exp_year: 2030, cvv: "123".to_string() },
    }
}

#[test]
fn authorization_flow() {
    let h = "hash_a".to_string();
    match start_authorize(None, &h, payload()) {
        Ok(AuthorizeStart::Call(req)) => {
            assert_eq!(req.amount_cents, 15000);
            assert_eq!(req.currency, "USD");
            assert_eq!(req.card.number, "4111111111111111");
        }
        _ => panic!("expected a bank call"),
    }
    match start_authorize(Some(record("hash_a", IdempotencyStatus::Complete, Some("{}"))), &h, payload()) {
        Ok(AuthorizeStart::Replay { status, body }) => assert_eq!((status, body.as_str()), (200, "{}")),
        _ => panic!("expected a replay"),
    }
    assert!(matches!(
        start_authorize(Some(record("hash_b", IdempotencyStatus::Complete, Some("{}"))), &h, payload()),
        Err(AppError::IdempotencyKeyConflict)
    ));
    assert!(matches!(
        start_authorize(Some(record("hash_a", IdempotencyStatus::InFlight, None)), &h, payload()),
        Err(AppError::IdempotencyInFlight)
    ));

    let commit = finish_authorize(
        "pay_1".to_string(),
        Ok(BankAuthResponse { auth_id: "auth_9".to_string(), status: "authorized".to_string() }),
    );
    let update = commit.update.as_ref().unwrap();
    assert_eq!(update.payment_id, "pay_1");
    assert_eq!(update.from, PaymentStatus::Pending);
    assert_eq!(update.to, PaymentStatus::Authorized);
    assert_eq!(update.bank_id.as_deref(), Some("auth_9"));
    assert_eq!(update.actor, "client");
    let response = commit.response.as_ref().ok().unwrap();
    assert_eq!(response.id, "pay_1");
    assert_eq!(response.status, "authorized");
    assert_eq!(commit.response_status, 200);

    let declined = finish_authorize("pay_1".to_string(), Err(BankError::InsufficientFunds));
    assert!(declined.update.is_none());
    assert_eq!(declined.response_status, 402);
    match declined.response {
        Err(AppError::BankDeclined { reason, retryable }) => {
            assert_eq!(reason, "insufficient funds");
            assert!(!retryable);
        }
        _ => panic!("expected a decline"),
    }
    match finish_authorize("pay_1".to_string(), Err(BankError::Timeout)).response {
        Err(AppError::BankDeclined { reason, retryable }) => {
            assert_eq!(reason, "timeout");
            assert!(retryable);
        }
        _ => panic!("expected a decline"),
    }
}

#[test]
fn capture_flow() {
    let h = "cap_hash".to_string();
    assert!(matches!(start_capture(None, &h, None), Err(AppError::NotFound)));
    match start_capture(None, &h, Some(row(PaymentStatus::Pending, None))) {
        Err(AppError::InvalidTransition { from, operation }) => {
            assert_eq!(from, "pending");
            assert_eq!(operation, "capture");
        }
        _ => panic!("expected an invalid transition"),
    }
    match start_capture(None, &h, Some(row(PaymentStatus::Captured, Some("auth_1")))) {
        Err(AppError::InvalidTransition { from, .. }) => assert_eq!(from, "captured"),
        _ => panic!("expected an invalid transition"),
    }
    match start_capture(None, &h, Some(row(PaymentStatus::Authorized, Some("auth_1")))) {
        Ok(CaptureStart::Call(req)) => {
            assert_eq!(req.auth_id, "auth_1");
            assert_eq!(req.amount_cents, 15000);
        }
        _ => panic!("expected a bank call"),
    }
    // A capture sent again after it finished gets its first answer back,
    // although the payment is captured by now.
    let done = record("cap_hash", IdempotencyStatus::Complete, Some(r#"{"id":"pay_1","status":"captured"}"#));
    match start_capture(Some(done), &h, Some(row(PaymentStatus::Captured, Some("auth_1")))) {
        Ok(CaptureStart::Replay { status, body }) => {
            assert_eq!(status, 200);
            assert_eq!(body, r#"{"id":"pay_1","status":"captured"}"#);
        }
        _ => panic!("expected a replay"),
    }
    let in_flight = record("cap_hash", IdempotencyStatus::InFlight, None);
    assert!(matches!(
        start_capture(Some(in_flight), &h, Some(row(PaymentStatus::Authorized, Some("a")))),
        Err(AppError::IdempotencyInFlight)
    ));

    let commit = finish_capture(
        "pay_1".to_string(),
        Ok(BankCaptureResponse { capture_id: "cap_1".to_string(), status: "captured".to_string() }),
    );
    let update = commit.update.as_ref().unwrap();
    assert_eq!(update.from, PaymentStatus::Authorized);
    assert_eq!(update.to, PaymentStatus::Captured);
    assert_eq!(update.bank_id.as_deref(), Some("cap_1"));
    assert_eq!(commit.response.as_ref().ok().unwrap().status, "captured");
    let declined = finish_capture("pay_1".to_string(), Err(BankError::ServerError { status: 503 }));
    assert!(declined.update.is_none());
    assert_eq!(declined.response_status, 402);
    match declined.response {
        Err(AppError::BankDeclined { reason, retryable }) => {
            assert_eq!(reason, "bank 5xx: 503");
            assert!(retryable);
        }
        _ => panic!("expected a decline"),
    }
}

#[test]
fn payment_lookup() {
    assert!(matches!(summarize_payment(None), Err(AppError::NotFound)));
    let s = summarize_payment(Some(row(PaymentStatus::Authorized, Some("a")))).ok().unwrap();
    assert_eq!(s.id, "pay_1");
    assert_eq!(s.status, PaymentStatus::Authorized);
    assert_eq!(s.amount_cents, 15000);
    assert_eq!(s.currency, "USD");
    assert_eq!(s.order_id, "ord_1");
}

#[test]
fn recovery_decisions() {
    match recovery_probe(&row(PaymentStatus::Pending, None)) {
        RecoveryProbe::ByIdempotencyKey(k) => assert_eq!(k, "idem_1"),
        RecoveryProbe::ByAuthorization(_) => panic!("expected a lookup by key"),
    }
    match recovery_probe(&row(PaymentStatus::Pending, Some("auth_7"))) {
        RecoveryProbe::ByAuthorization(a) => assert_eq!(a, "auth_7"),
        RecoveryProbe::ByIdempotencyKey(_) => panic!("expected a lookup by authorization"),
    }
    let authorized = AuthStatus { auth_id: "auth_7".to_string(), status: "authorized".to_string() };
    let u = recovery_update("pay_1".to_string(), &authorized).unwrap();
    assert_eq!(u.payment_id, "pay_1");
    assert_eq!(u.from, PaymentStatus::Pending);
    assert_eq!(u.to, PaymentStatus::Authorized);
    assert_eq!(u.bank_id.as_deref(), Some("auth_7"));
    assert_eq!(u.actor, "worker");
    let voided = AuthStatus { auth_id: "auth_7".to_string(), status: "voided".to_string() };
    assert!(recovery_update("pay_1".to_string(), &voided).is_none());
}
