use payment_gateway::common::CardDetails;
use payment_gateway::fingerprint::hash_request;
use payment_gateway::mock_bank::cards::{get_card, test_cards, validate_luhn};
use payment_gateway::mock_bank::chaos::{is_chaos_exempt, plan_chaos, ChaosStep};
use payment_gateway::mock_bank::models::{AuthorizeRequest, CaptureRequest, RefundRequest, VoidRequest};
use payment_gateway::mock_bank::routes::{get_idempotency_key, is_auth_expired, BankReply};
use payment_gateway::mock_bank::state::{new_state, BankState, BankStatus, BankSuccess, Timestamp};

fn auth_req(number: &str, amount: i64) -> AuthorizeRequest {
    AuthorizeRequest {
        amount_cents: amount,
        currency: "USD".to_string(),
        card: CardDetails { number: number.to_string(), exp_month: 12, exp_year: 2030, cvv: "123".to_string() },
    }
}

fn key(k: &str) -> Option<String> {
    Some(k.to_string())
}

fn failure(r: &BankReply) -> (u16, String, String) {
    match r {
        BankReply::Failure { status, body } => (*status, body.error.clone(), body.code.clone()),
        other => panic!("expected a refusal, got {:?}", other),
    }
}

fn authorized_id(r: &BankReply) -> String {
    match r {
        BankReply::Success(BankSuccess::Authorized(a)) => {
            assert_eq!(a.status, "authorized");
            a.auth_id.clone()
        }
        other => panic!("expected an authorization, got {:?}", other),
    }
}

fn captured_id(r: &BankReply) -> String {
    match r {
        BankReply::Success(BankSuccess::Captured(c)) => {
            assert_eq!(c.status, "captured");
            c.capture_id.clone()
        }
        other => panic!("expected a capture, got {:?}", other),
    }
}

fn at(secs: i64) -> Timestamp {
    Timestamp { secs, nanos: 0 }
}

fn authorize_fixed(bank: &mut BankState, k: &str, number: &str, amount: i64, id: &str, secs: i64) -> BankReply {
    let h = hash_request(format!("auth:{}:{}", number, amount).as_bytes());
    bank.authorize_with(key(k), h, &auth_req(number, amount), id.to_string(), at(secs))
}

#[test]
fn luhn_catches_single_digit_errors() {
    let valid = "4111111111111111";
    assert!(validate_luhn(valid));
    for i in 0..valid.len() {
        for d in '0'..='9' {
            let mut chars: Vec<char> = valid.chars().collect();
            if chars[i] == d {
                continue;
            }
            chars[i] = d;
            let changed: String = chars.into_iter().collect();
            assert!(!validate_luhn(&changed), "{}", changed);
        }
    }
}

#[test]
fn authorizations_can_be_looked_up() {
    let mut bank = BankState::new();
    authorize_fixed(&mut bank, "key_1", "4111111111111111", 10000, "auth_1", 0);
    let by_key = bank.authorization_status_by_key(&"key_1".to_string()).unwrap();
    assert_eq!((by_key.auth_id.as_str(), by_key.status.as_str()), ("auth_1", "authorized"));
    assert!(bank.authorization_status_by_key(&"unknown".to_string()).is_none());
    bank.capture_with(key("c"), hash_request(b"c"), &CaptureRequest { auth_id: "auth_1".to_string(), amount_cents: 1 }, "cap_1".to_string(), at(0));
    let by_id = bank.authorization_status(&"auth_1".to_string()).unwrap();
    assert_eq!(by_id.status, "captured");
    assert!(bank.authorization_status(&"nope".to_string()).is_none());
    // A key used only at another endpoint finds no authorization.
    assert!(bank.authorization_status_by_key(&"c".to_string()).is_none());
}

#[test]
fn luhn_check() {
    for c in test_cards() {
        assert!(validate_luhn(c.number), "{}", c.number);
    }
    assert!(validate_luhn("79927398713"));
    assert!(!validate_luhn("79927398710"));
    assert!(!validate_luhn("4111111111111112"));
    assert!(!validate_luhn("4111-1111-1111-1111"));
    assert!(validate_luhn(""));
    assert!(validate_luhn("0"));
    assert!(!validate_luhn("١"));
}

#[test]
fn test_card_lookup() {
    assert_eq!(test_cards().len(), 4);
    let low = get_card("4242424242424242").unwrap();
    assert_eq!(low.balance_cents, 50000);
    assert_eq!(low.cvv, "456");
    assert_eq!(low.expiry, "06/2030");
    assert_eq!(low.usage, "Low balance");
    assert_eq!(get_card("5105105105105100").unwrap().expiry, "03/2020");
    assert_eq!(get_card("5555555555554444").unwrap().balance_cents, 0);
    assert_eq!(get_card("4111111111111111").unwrap().balance_cents, 1000000);
    assert!(get_card("79927398713").is_none());
}

#[test]
fn missing_key_is_refused() {
    let mut bank = new_state();
    let r = bank.authorize_with(None, hash_request(b"x"), &auth_req("4111111111111111", 100), "a1".to_string(), at(0));
    assert_eq!(failure(&r), (400, "Missing Idempotency-Key header".to_string(), "MISSING_IDEMPOTENCY_KEY".to_string()));
    assert!(bank.transaction(&"a1".to_string()).is_none());
    assert!(get_idempotency_key(None).is_err());
    assert_eq!(get_idempotency_key(key("k")).ok().unwrap(), "k");
}

#[test]
fn authorization_rules() {
    let mut bank = BankState::new();
    let r = authorize_fixed(&mut bank, "k1", "4111111111111112", 100, "a1", 0);
    assert_eq!(failure(&r).0, 422);
    assert_eq!(failure(&r).2, "INVALID_CARD");
    let r = authorize_fixed(&mut bank, "k2", "79927398713", 100, "a2", 0);
    assert_eq!(failure(&r), (422, "Card not found".to_string(), "CARD_NOT_FOUND".to_string()));
    let r = authorize_fixed(&mut bank, "k3", "5555555555554444", 50000, "a3", 0);
    assert_eq!(failure(&r), (402, "Insufficient funds".to_string(), "INSUFFICIENT_FUNDS".to_string()));
    let r = authorize_fixed(&mut bank, "k4", "5105105105105100", 100, "a4", 0);
    assert_eq!(failure(&r), (422, "Card expired".to_string(), "CARD_EXPIRED".to_string()));
    let r = authorize_fixed(&mut bank, "k4b", "5105105105105100", 600000, "a4b", 0);
    assert_eq!(failure(&r), (422, "Card expired".to_string(), "CARD_EXPIRED".to_string()));
    let r = authorize_fixed(&mut bank, "k5", "4242424242424242", 50001, "a5", 0);
    assert_eq!(failure(&r).0, 402);
    for id in ["a1", "a2", "a3", "a4", "a4b", "a5"] {
        assert!(bank.transaction(&id.to_string()).is_none());
    }
    let r = authorize_fixed(&mut bank, "k6", "4242424242424242", 50000, "a6", 1234);
    assert_eq!(authorized_id(&r), "a6");
    let tx = bank.transaction(&"a6".to_string()).unwrap();
    assert_eq!(tx.status, BankStatus::Authorized);
    assert_eq!(tx.amount_cents, 50000);
    assert_eq!(tx.card_number, "4242424242424242");
    assert_eq!((tx.created_at.secs, tx.created_at.nanos), (1234, 0));
    assert_eq!(tx.capture_id, None);
}

#[test]
fn same_request_is_replayed_and_other_request_conflicts() {
    let mut bank = BankState::new();
    let h = hash_request(b"body-1");
    let first = bank.authorize_with(key("k"), h.clone(), &auth_req("4111111111111111", 15000), "a1".to_string(), at(0));
    assert_eq!(authorized_id(&first), "a1");
    let again = bank.authorize_with(key("k"), h.clone(), &auth_req("4111111111111111", 15000), "a2".to_string(), at(5));
    match again {
        BankReply::Replayed(BankSuccess::Authorized(a)) => assert_eq!(a.auth_id, "a1"),
        other => panic!("expected a replay, got {:?}", other),
    }
    assert!(bank.transaction(&"a2".to_string()).is_none());
    let other = bank.authorize_with(key("k"), hash_request(b"body-2"), &auth_req("4111111111111111", 1), "a3".to_string(), at(5));
    assert_eq!(
        failure(&other),
        (422, "Idempotency key reused with different request".to_string(), "IDEMPOTENCY_KEY_CONFLICT".to_string())
    );
    assert!(bank.transaction(&"a3".to_string()).is_none());
    // The same key at another endpoint is a different request slot.
    let cap = bank.capture_with(key("k"), h, &CaptureRequest { auth_id: "a1".to_string(), amount_cents: 100 }, "c1".to_string(), at(1));
    assert_eq!(captured_id(&cap), "c1");
}

#[test]
fn capture_rules() {
    let mut bank = BankState::new();
    let day: i64 = 24 * 60 * 60;
    authorize_fixed(&mut bank, "a", "4111111111111111", 10000, "auth_1", 0);
    authorize_fixed(&mut bank, "b", "4111111111111111", 10000, "auth_2", 0);
    let creq = |id: &str, amount: i64| CaptureRequest { auth_id: id.to_string(), amount_cents: amount };
    let r = bank.capture_with(key("c0"), hash_request(b"c0"), &creq("nope", 1), "c0".to_string(), at(0));
    assert_eq!(failure(&r), (404, "Authorization not found".to_string(), "AUTH_NOT_FOUND".to_string()));
    let r = bank.capture_with(key("c1"), hash_request(b"c1"), &creq("auth_1", 10001), "c1".to_string(), at(0));
    assert_eq!(
        failure(&r),
        (409, "Capture amount exceeds authorized amount".to_string(), "AMOUNT_EXCEEDS_AUTH".to_string())
    );
    let r = bank.capture_with(key("c2"), hash_request(b"c2"), &creq("auth_1", 10000), "c2".to_string(), at(7 * day));
    assert_eq!(failure(&r), (410, "Authorization expired".to_string(), "AUTH_EXPIRED".to_string()));
    assert_eq!(bank.transaction(&"auth_1".to_string()).unwrap().status, BankStatus::Authorized);
    let r = bank.capture_with(key("c3"), hash_request(b"c3"), &creq("auth_1", 10000), "cap_1".to_string(), at(7 * day - 1));
    assert_eq!(captured_id(&r), "cap_1");
    let tx = bank.transaction(&"auth_1".to_string()).unwrap();
    assert_eq!(tx.status, BankStatus::Captured);
    assert_eq!(tx.capture_id.as_deref(), Some("cap_1"));
    let r = bank.capture_with(key("c4"), hash_request(b"c4"), &creq("auth_1", 1), "c4".to_string(), at(0));
    assert_eq!(failure(&r), (409, "Transaction not in authorized state".to_string(), "INVALID_STATE".to_string()));
    // A partial capture of the second authorization.
    let r = bank.capture_with(key("c5"), hash_request(b"c5"), &creq("auth_2", 1), "cap_2".to_string(), at(0));
    assert_eq!(captured_id(&r), "cap_2");
}

#[test]
fn void_rules() {
    let mut bank = BankState::new();
    authorize_fixed(&mut bank, "a", "4111111111111111", 10000, "auth_1", 0);
    let vreq = |id: &str| VoidRequest { auth_id: id.to_string() };
    let r = bank.void_with(key("v0"), hash_request(b"v0"), &vreq("nope"), "v0".to_string());
    assert_eq!(failure(&r).2, "AUTH_NOT_FOUND");
    let r = bank.void_with(key("v1"), hash_request(b"v1"), &vreq("auth_1"), "void_1".to_string());
    match r {
        BankReply::Success(BankSuccess::Voided(v)) => {
            assert_eq!(v.void_id, "void_1");
            assert_eq!(v.status, "voided");
        }
        other => panic!("expected a void, got {:?}", other),
    }
    assert_eq!(bank.transaction(&"auth_1".to_string()).unwrap().status, BankStatus::Voided);
    let r = bank.void_with(key("v2"), hash_request(b"v2"), &vreq("auth_1"), "void_2".to_string());
    assert_eq!(failure(&r), (409, "Transaction not in authorized state".to_string(), "INVALID_STATE".to_string()));
    let r = bank.capture_with(key("c"), hash_request(b"c"), &CaptureRequest { auth_id: "auth_1".to_string(), amount_cents: 1 }, "c".to_string(), at(0));
    assert_eq!(failure(&r).2, "INVALID_STATE");
}

#[test]
fn refund_rules() {
    let mut bank = BankState::new();
    authorize_fixed(&mut bank, "a", "4111111111111111", 10000, "auth_1", 0);
    authorize_fixed(&mut bank, "b", "4111111111111111", 10000, "auth_2", 0);
    bank.capture_with(key("c"), hash_request(b"c"), &CaptureRequest { auth_id: "auth_1".to_string(), amount_cents: 5000 }, "cap_1".to_string(), at(0));
    let rreq = |id: &str, amount: i64| RefundRequest { capture_id: id.to_string(), amount_cents: amount };
    let r = bank.refund_with(key("r0"), hash_request(b"r0"), &rreq("auth_2", 1), "r0".to_string());
    assert_eq!(failure(&r), (404, "Captured transaction not found".to_string(), "CAPTURE_NOT_FOUND".to_string()));
    let r = bank.refund_with(key("r1"), hash_request(b"r1"), &rreq("cap_1", 10001), "r1".to_string());
    assert_eq!(
        failure(&r),
        (409, "Refund amount exceeds captured amount".to_string(), "AMOUNT_EXCEEDS_CAPTURE".to_string())
    );
    let r = bank.refund_with(key("r2"), hash_request(b"r2"), &rreq("cap_1", 10000), "ref_1".to_string());
    match r {
        BankReply::Success(BankSuccess::Refunded(x)) => {
            assert_eq!(x.refund_id, "ref_1");
            assert_eq!(x.status, "refunded");
        }
        other => panic!("expected a refund, got {:?}", other),
    }
    let tx = bank.transaction(&"auth_1".to_string()).unwrap();
    assert_eq!(tx.status, BankStatus::Refunded);
    assert_eq!(tx.refund_id.as_deref(), Some("ref_1"));
    let r = bank.refund_with(key("r3"), hash_request(b"r3"), &rreq("cap_1", 1), "r3".to_string());
    assert_eq!(failure(&r), (409, "Transaction not in captured state".to_string(), "INVALID_STATE".to_string()));
    // Replaying the refund answers with the first refund id.
    match bank.refund_with(key("r2"), hash_request(b"r2"), &rreq("cap_1", 10000), "ref_2".to_string()) {
        BankReply::Replayed(BankSuccess::Refunded(x)) => assert_eq!(x.refund_id, "ref_1"),
        other => panic!("expected a replay, got {:?}", other),
    }
}

#[test]
fn live_operations_draw_fresh_ids_and_time() {
    let mut bank = BankState::new();
    let r1 = bank.authorize(key("k1"), hash_request(b"1"), &auth_req("4111111111111111", 100));
    let r2 = bank.authorize(key("k2"), hash_request(b"2"), &auth_req("4111111111111111", 100));
    let id1 = authorized_id(&r1);
    let id2 = authorized_id(&r2);
    assert_ne!(id1, id2);
    assert_eq!(id1.len(), 36);
    let created = bank.transaction(&id1).unwrap().created_at;
    assert!(created.secs > 1_600_000_000);
    assert!(created.nanos < 1_000_000_000);
    let c = bank.capture(key("k3"), hash_request(b"3"), &CaptureRequest { auth_id: id1.clone(), amount_cents: 100 });
    let cap = captured_id(&c);
    assert_ne!(cap, id1);
    match bank.void(key("k4"), hash_request(b"4"), &VoidRequest { auth_id: id2.clone() }) {
        BankReply::Success(BankSuccess::Voided(v)) => assert_eq!(v.void_id.len(), 36),
        other => panic!("expected a void, got {:?}", other),
    }
    match bank.refund(key("k5"), hash_request(b"5"), &RefundRequest { capture_id: cap, amount_cents: 100 }) {
        BankReply::Success(BankSuccess::Refunded(x)) => assert_eq!(x.refund_id.len(), 36),
        other => panic!("expected a refund, got {:?}", other),
    }
}

#[test]
fn chaos_spares_its_own_paths() {
    assert!(is_chaos_exempt("/api/v1/chaos"));
    assert!(is_chaos_exempt("/docs"));
    assert!(is_chaos_exempt("/docs/index.html"));
    assert!(is_chaos_exempt("/api-docs/openapi.json"));
    assert!(!is_chaos_exempt("/api/v1/chaos/x"));
    assert!(!is_chaos_exempt("/api/v1/captures"));
    assert!(matches!(plan_chaos("/api/v1/captures", false, 100, 2000), ChaosStep::PassThrough));
    assert!(matches!(plan_chaos("/docs", true, 100, 2000), ChaosStep::PassThrough));
    assert!(matches!(plan_chaos("/api/v1/voids", true, 5, 5), ChaosStep::Disturb { delay_ms: 5 }));
    let mut delays = Vec::new();
    for _ in 0..100 {
        match plan_chaos("/api/v1/authorizations", true, 100, 2000) {
            ChaosStep::Disturb { delay_ms } => {
                assert!((100..=2000).contains(&delay_ms));
                delays.push(delay_ms);
            }
            ChaosStep::PassThrough => panic!("not disturbed"),
        }
    }
    assert!(delays.iter().any(|d| *d != delays[0]));
}

#[test]
fn captures_and_voids_are_replayed() {
    let mut bank = BankState::new();
    authorize_fixed(&mut bank, "a", "4111111111111111", 10000, "auth_1", 0);
    authorize_fixed(&mut bank, "b", "4111111111111111", 10000, "auth_2", 0);
    let creq = CaptureRequest { auth_id: "auth_1".to_string(), amount_cents: 100 };
    let first = bank.capture_with(key("c"), hash_request(b"cap"), &creq, "cap_1".to_string(), at(10));
    assert_eq!(captured_id(&first), "cap_1");
    match bank.capture_with(key("c"), hash_request(b"cap"), &creq, "cap_2".to_string(), at(20)) {
        BankReply::Replayed(BankSuccess::Captured(c)) => assert_eq!(c.capture_id, "cap_1"),
        other => panic!("expected a replay, got {:?}", other),
    }
    let other = bank.capture_with(key("c"), hash_request(b"other"), &creq, "cap_3".to_string(), at(20));
    assert_eq!(failure(&other).2, "IDEMPOTENCY_KEY_CONFLICT");
    assert_eq!(bank.transaction(&"auth_1".to_string()).unwrap().capture_id.as_deref(), Some("cap_1"));

    let vreq = VoidRequest { auth_id: "auth_2".to_string() };
    let first = bank.void_with(key("v"), hash_request(b"void"), &vreq, "void_1".to_string());
    assert!(matches!(first, BankReply::Success(BankSuccess::Voided(_))));
    match bank.void_with(key("v"), hash_request(b"void"), &vreq, "void_2".to_string()) {
        BankReply::Replayed(BankSuccess::Voided(v)) => assert_eq!(v.void_id, "void_1"),
        other => panic!("expected a replay, got {:?}", other),
    }
}

#[test]
fn authorization_expires_at_exactly_seven_days() {
    let created = Timestamp { secs: 100, nanos: 500 };
    let week: i64 = 7 * 24 * 60 * 60;
    assert!(!is_auth_expired(created, Timestamp { secs: 100 + week, nanos: 499 }));
    assert!(is_auth_expired(created, Timestamp { secs: 100 + week, nanos: 500 }));
    assert!(!is_auth_expired(created, Timestamp { secs: 100 + week - 1, nanos: 999_999_999 }));
    assert!(!is_auth_expired(created, Timestamp { secs: 0, nanos: 0 }));
    let mut bank = BankState::new();
    let h = hash_request(b"auth");
    let r = bank.authorize_with(key("a"), h, &auth_req("4111111111111111", 10000), "auth_1".to_string(), created);
    assert_eq!(authorized_id(&r), "auth_1");
    let creq = CaptureRequest { auth_id: "auth_1".to_string(), amount_cents: 10 };
    // One nanosecond short of the limit the authorization can still be captured.
    let late = Timestamp { secs: 100 + week, nanos: 499 };
    let expired = Timestamp { secs: 100 + week, nanos: 500 };
    let r = bank.capture_with(key("c1"), hash_request(b"c1"), &creq, "c1".to_string(), expired);
    assert_eq!(failure(&r), (410, "Authorization expired".to_string(), "AUTH_EXPIRED".to_string()));
    let r = bank.capture_with(key("c2"), hash_request(b"c2"), &creq, "cap_1".to_string(), late);
    assert_eq!(captured_id(&r), "cap_1");
}
