use payment_gateway::payment::{PaymentEvent, PaymentStatus};

fn auth_ok() -> PaymentEvent {
    PaymentEvent::AuthorizationSucceeded { bank_auth_id: "auth_1".to_string() }
}
fn capture_ok() -> PaymentEvent {
    PaymentEvent::CaptureSucceeded { bank_capture_id: "cap_1".to_string() }
}
fn void_ok() -> PaymentEvent {
    PaymentEvent::VoidSucceeded { bank_void_id: "void_1".to_string() }
}
fn refund_ok() -> PaymentEvent {
    PaymentEvent::RefundSucceeded { bank_refund_id: "ref_1".to_string() }
}
fn auth_failed() -> PaymentEvent {
    PaymentEvent::AuthorizationFailed { reason: "declined".to_string() }
}

#[test]
fn legal_transitions_move_forward() {
    assert_eq!(PaymentStatus::Pending.apply(&auth_ok()).ok(), Some(PaymentStatus::Authorized));
    assert_eq!(PaymentStatus::Authorized.apply(&capture_ok()).ok(), Some(PaymentStatus::Captured));
    assert_eq!(PaymentStatus::Authorized.apply(&void_ok()).ok(), Some(PaymentStatus::Voided));
    assert_eq!(PaymentStatus::Captured.apply(&refund_ok()).ok(), Some(PaymentStatus::Refunded));
}

#[test]
fn captured_payment_cannot_be_voided() {
    let err = PaymentStatus::Captured.apply(&void_ok()).err().unwrap();
    assert_eq!(err.from, PaymentStatus::Captured);
    assert_eq!(err.event, "VoidSucceeded");
    assert_eq!(err.message(), "cannot transition from captured via VoidSucceeded");
}

#[test]
fn refund_requires_capture() {
    for s in [PaymentStatus::Pending, PaymentStatus::Authorized, PaymentStatus::Voided, PaymentStatus::Refunded] {
        assert!(s.apply(&refund_ok()).is_err());
    }
}

#[test]
fn final_statuses_accept_nothing() {
    for s in [PaymentStatus::Voided, PaymentStatus::Refunded] {
        for e in [auth_ok(), auth_failed(), capture_ok(), void_ok(), refund_ok()] {
            assert!(s.apply(&e).is_err());
        }
    }
}

#[test]
fn failed_authorization_never_moves() {
    let err = PaymentStatus::Pending.apply(&auth_failed()).err().unwrap();
    assert_eq!(err.from, PaymentStatus::Pending);
    assert_eq!(err.event, "AuthorizationFailed");
}

#[test]
fn a_payment_accepts_at_most_three_events() {
    let events = [auth_ok(), capture_ok(), refund_ok(), auth_ok(), capture_ok(), void_ok(), refund_ok()];
    let mut s = PaymentStatus::Pending;
    let mut accepted = 0;
    for e in events.iter() {
        if let Ok(t) = s.apply(e) {
            s = t;
            accepted += 1;
        }
    }
    assert_eq!(accepted, 3);
    assert_eq!(s, PaymentStatus::Refunded);
}

#[test]
fn status_and_event_names() {
    assert_eq!(PaymentStatus::Pending.to_string(), "pending");
    assert_eq!(PaymentStatus::Authorized.to_string(), "authorized");
    assert_eq!(PaymentStatus::Captured.to_string(), "captured");
    assert_eq!(PaymentStatus::Voided.to_string(), "voided");
    assert_eq!(PaymentStatus::Refunded.to_string(), "refunded");
    assert_eq!(auth_ok().name(), "AuthorizationSucceeded");
    assert_eq!(auth_failed().name(), "AuthorizationFailed");
    assert_eq!(capture_ok().name(), "CaptureSucceeded");
    assert_eq!(void_ok().name(), "VoidSucceeded");
    assert_eq!(refund_ok().name(), "RefundSucceeded");
}

#[test]
fn no_event_leads_back_to_pending() {
    for s in [PaymentStatus::Pending, PaymentStatus::Authorized, PaymentStatus::Captured, PaymentStatus::Voided, PaymentStatus::Refunded] {
        for e in [auth_ok(), auth_failed(), capture_ok(), void_ok(), refund_ok()] {
            assert_ne!(s.apply(&e).ok(), Some(PaymentStatus::Pending));
        }
    }
}
