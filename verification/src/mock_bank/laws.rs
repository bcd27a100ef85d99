//! What holds of the mock bank across its operations: idempotent replay,
//! refusal of reused keys, refusals that change nothing, the amount and
//! expiry rules, and the lifecycle of a transaction.
use vstd::prelude::*;
use crate::mock_bank::cards::{find_card, lemma_found_card_has_number, luhn_valid, test_card_table};
use crate::mock_bank::routes::{
    ReplyView, auth_expired, auth_path, authorization_report_by_key, authorize_outcome, capture_outcome, capture_path,
    idempotency_gate, refund_outcome, refund_path, refusal, void_outcome, void_path,
};
use crate::mock_bank::models::ReceiptView;
use crate::mock_bank::state::{BankStateView, BankStatus, SuccessView, Timestamp, TxView};

verus! {

/// Sending a successful authorization again under the same key with the
/// same fingerprint is answered with the first answer, marked replayed, and
/// changes nothing, whatever else the second request holds.
pub proof fn law_authorization_replayed(
    s: BankStateView,
    key: Seq<char>,
    hash: Seq<char>,
    amount: i64,
    number: Seq<char>,
    id: Seq<char>,
    now: Timestamp,
    amount2: i64,
    number2: Seq<char>,
    id2: Seq<char>,
    now2: Timestamp,
)
    ensures
        ({
            let (s1, r1) = authorize_outcome(s, Some(key), hash, amount, number, id, now);
            r1 is Success ==> authorize_outcome(s1, Some(key), hash, amount2, number2, id2, now2)
                == (s1, ReplyView::Replayed(r1->Success_0))
        }),
{
}

/// Sending a successful capture again under the same key with the same
/// fingerprint is answered with the first answer and changes nothing.
pub proof fn law_capture_replayed(
    s: BankStateView,
    key: Seq<char>,
    hash: Seq<char>,
    auth_id: Seq<char>,
    amount: i64,
    id: Seq<char>,
    now: Timestamp,
    auth_id2: Seq<char>,
    amount2: i64,
    id2: Seq<char>,
    now2: Timestamp,
)
    ensures
        ({
            let (s1, r1) = capture_outcome(s, Some(key), hash, auth_id, amount, id, now);
            r1 is Success ==> capture_outcome(s1, Some(key), hash, auth_id2, amount2, id2, now2)
                == (s1, ReplyView::Replayed(r1->Success_0))
        }),
{
}

/// Sending a successful void again under the same key with the same
/// fingerprint is answered with the first answer and changes nothing.
pub proof fn law_void_replayed(
    s: BankStateView,
    key: Seq<char>,
    hash: Seq<char>,
    auth_id: Seq<char>,
    id: Seq<char>,
    auth_id2: Seq<char>,
    id2: Seq<char>,
)
    ensures
        ({
            let (s1, r1) = void_outcome(s, Some(key), hash, auth_id, id);
            r1 is Success ==> void_outcome(s1, Some(key), hash, auth_id2, id2) == (
                s1,
                ReplyView::Replayed(r1->Success_0),
            )
        }),
{
}

/// Sending a successful refund again under the same key with the same
/// fingerprint is answered with the first answer and changes nothing.
pub proof fn law_refund_replayed(
    s: BankStateView,
    key: Seq<char>,
    hash: Seq<char>,
    amount: i64,
    target: Option<Seq<char>>,
    id: Seq<char>,
    amount2: i64,
    target2: Option<Seq<char>>,
    id2: Seq<char>,
)
    ensures
        ({
            let (s1, r1) = refund_outcome(s, Some(key), hash, amount, target, id);
            r1 is Success ==> refund_outcome(s1, Some(key), hash, amount2, target2, id2) == (
                s1,
                ReplyView::Replayed(r1->Success_0),
            )
        }),
{
}

/// A key already used at an endpoint, sent with another request (another
/// fingerprint), is refused with 422 and changes nothing.
pub proof fn law_reused_key_is_refused(
    s: BankStateView,
    key: Seq<char>,
    hash: Seq<char>,
    amount: i64,
    number: Seq<char>,
    auth_id: Seq<char>,
    target: Option<Seq<char>>,
    id: Seq<char>,
    now: Timestamp,
)
    ensures
        ({
            let conflict = refusal(
                422,
                "Idempotency key reused with different request"@,
                "IDEMPOTENCY_KEY_CONFLICT"@,
            );
            &&& s.records.contains_key((auth_path(), key)) && s.records[(auth_path(), key)].request_hash
                != hash ==> authorize_outcome(s, Some(key), hash, amount, number, id, now) == (
                s,
                conflict,
            )
            &&& s.records.contains_key((capture_path(), key)) && s.records[(
                capture_path(),
                key,
            )].request_hash != hash ==> capture_outcome(s, Some(key), hash, auth_id, amount, id, now)
                == (s, conflict)
            &&& s.records.contains_key((void_path(), key)) && s.records[(void_path(), key)].request_hash
                != hash ==> void_outcome(s, Some(key), hash, auth_id, id) == (s, conflict)
            &&& s.records.contains_key((refund_path(), key)) && s.records[(
                refund_path(),
                key,
            )].request_hash != hash ==> refund_outcome(s, Some(key), hash, amount, target, id) == (
                s,
                conflict,
            )
        }),
{
}

/// A request that is refused, or answered with a stored answer, leaves the
/// ledger as it was.
pub proof fn law_refusals_change_nothing(
    s: BankStateView,
    key: Option<Seq<char>>,
    hash: Seq<char>,
    amount: i64,
    number: Seq<char>,
    auth_id: Seq<char>,
    target: Option<Seq<char>>,
    id: Seq<char>,
    now: Timestamp,
)
    ensures
        !(authorize_outcome(s, key, hash, amount, number, id, now).1 is Success) ==> authorize_outcome(
            s,
            key,
            hash,
            amount,
            number,
            id,
            now,
        ).0 == s,
        !(capture_outcome(s, key, hash, auth_id, amount, id, now).1 is Success) ==> capture_outcome(
            s,
            key,
            hash,
            auth_id,
            amount,
            id,
            now,
        ).0 == s,
        !(void_outcome(s, key, hash, auth_id, id).1 is Success) ==> void_outcome(
            s,
            key,
            hash,
            auth_id,
            id,
        ).0 == s,
        !(refund_outcome(s, key, hash, amount, target, id).1 is Success) ==> refund_outcome(
            s,
            key,
            hash,
            amount,
            target,
            id,
        ).0 == s,
{
}

/// An authorization the bank made can be found by the idempotency key it
/// was requested under, reported as authorized under its new id, so a
/// caller that never heard back can learn of it.
pub proof fn law_authorization_found_by_key(
    s: BankStateView,
    key: Seq<char>,
    hash: Seq<char>,
    amount: i64,
    number: Seq<char>,
    id: Seq<char>,
    now: Timestamp,
)
    ensures
        ({
            let (s1, r) = authorize_outcome(s, Some(key), hash, amount, number, id, now);
            r is Success ==> authorization_report_by_key(s1, key) == Some(
                ReceiptView { id, status: "authorized"@ },
            )
        }),
{
}

/// The expired card is refused as expired whatever the amount asked: the
/// expiry is checked before the balance.
pub proof fn law_expired_card_refused_before_balance(
    s: BankStateView,
    key: Option<Seq<char>>,
    hash: Seq<char>,
    amount: i64,
    number: Seq<char>,
    id: Seq<char>,
    now: Timestamp,
)
    requires
        idempotency_gate(s, auth_path(), key, hash) is None,
        luhn_valid(number),
        find_card(test_card_table(), number) is Some,
        find_card(test_card_table(), number)->0.expiry == "03/2020"@,
    ensures
        authorize_outcome(s, key, hash, amount, number, id, now) == (
            s,
            refusal(422, "Card expired"@, "CARD_EXPIRED"@),
        ),
{
}

/// A capture succeeds only on an authorized transaction, for no more than
/// the authorized amount, and less than seven days after the authorization;
/// it leaves the transaction captured with its amount unchanged.
pub proof fn law_capture_within_authorization(
    s: BankStateView,
    key: Option<Seq<char>>,
    hash: Seq<char>,
    auth_id: Seq<char>,
    amount: i64,
    id: Seq<char>,
    now: Timestamp,
)
    ensures
        ({
            let (s1, r) = capture_outcome(s, key, hash, auth_id, amount, id, now);
            r is Success ==> {
                &&& s.transactions.contains_key(auth_id)
                &&& s.transactions[auth_id].status == BankStatus::Authorized
                &&& amount <= s.transactions[auth_id].amount_cents
                &&& !auth_expired(s.transactions[auth_id].created_at, now)
                &&& s1.transactions[auth_id].status == BankStatus::Captured
                &&& s1.transactions[auth_id].amount_cents == s.transactions[auth_id].amount_cents
                &&& s1.transactions[auth_id].capture_id == Some(id)
            }
        }),
{
}

/// A refund succeeds only on a captured transaction and for no more than
/// the transaction's recorded (authorized) amount; it leaves the
/// transaction refunded.
pub proof fn law_refund_within_capture(
    s: BankStateView,
    key: Option<Seq<char>>,
    hash: Seq<char>,
    amount: i64,
    target: Option<Seq<char>>,
    id: Seq<char>,
)
    ensures
        ({
            let (s1, r) = refund_outcome(s, key, hash, amount, target, id);
            r is Success ==> {
                &&& target is Some
                &&& s.transactions[target->0].status == BankStatus::Captured
                &&& amount <= s.transactions[target->0].amount_cents
                &&& s1.transactions[target->0].status == BankStatus::Refunded
                &&& s1.transactions[target->0].refund_id == Some(id)
            }
        }),
{
}

/// The moves a bank transaction can make: none, authorized to captured or
/// voided, captured to refunded.
pub open spec fn bank_step(a: BankStatus, b: BankStatus) -> bool {
    ||| a == b
    ||| a == BankStatus::Authorized && (b == BankStatus::Captured || b == BankStatus::Voided)
    ||| a == BankStatus::Captured && b == BankStatus::Refunded
}

/// Every transaction survives every operation, moving only along the
/// lifecycle; the only transaction an operation adds is a new authorization.
pub open spec fn lifecycle_respected(s: BankStateView, s1: BankStateView) -> bool {
    &&& forall|t: Seq<char>|
        #[trigger] s.transactions.contains_key(t) ==> s1.transactions.contains_key(t) && bank_step(
            s.transactions[t].status,
            s1.transactions[t].status,
        )
    &&& forall|t: Seq<char>|
        #[trigger] s1.transactions.contains_key(t) && !s.transactions.contains_key(t)
            ==> s1.transactions[t].status == BankStatus::Authorized
}

/// No operation moves a transaction against its lifecycle or drops one.
/// An authorization must be given an id no transaction has yet.
pub proof fn law_transaction_lifecycle(
    s: BankStateView,
    key: Option<Seq<char>>,
    hash: Seq<char>,
    amount: i64,
    number: Seq<char>,
    auth_id: Seq<char>,
    target: Option<Seq<char>>,
    id: Seq<char>,
    now: Timestamp,
)
    requires
        target matches Some(t) ==> s.transactions.contains_key(t),
    ensures
        !s.transactions.contains_key(id) ==> lifecycle_respected(
            s,
            authorize_outcome(s, key, hash, amount, number, id, now).0,
        ),
        lifecycle_respected(s, capture_outcome(s, key, hash, auth_id, amount, id, now).0),
        lifecycle_respected(s, void_outcome(s, key, hash, auth_id, id).0),
        lifecycle_respected(s, refund_outcome(s, key, hash, amount, target, id).0),
{
}

/// A void under a key not used before at the void endpoint succeeds exactly
/// when the named transaction exists and is authorized; it then answers with
/// the new void id and leaves the transaction voided, its amount and card
/// unchanged and every other transaction as it was. A void of a transaction in any other state (a captured one
/// among them) is refused with 409 and changes nothing.
pub proof fn law_void_only_authorized(
    s: BankStateView,
    key: Seq<char>,
    hash: Seq<char>,
    auth_id: Seq<char>,
    id: Seq<char>,
)
    ensures
        ({
            let (s1, r) = void_outcome(s, Some(key), hash, auth_id, id);
            &&& r is Success ==> s.transactions.contains_key(auth_id) && s.transactions[auth_id].status
                == BankStatus::Authorized && s1.transactions[auth_id].status == BankStatus::Voided
            &&& !s.records.contains_key((void_path(), key)) && s.transactions.contains_key(auth_id)
                && s.transactions[auth_id].status == BankStatus::Authorized ==> {
                &&& r == ReplyView::Success(
                    SuccessView::Voided(ReceiptView { id, status: "voided"@ }),
                )
                &&& s1.transactions[auth_id].status == BankStatus::Voided
                &&& s1.transactions == s.transactions.insert(
                    auth_id,
                    TxView { status: BankStatus::Voided, ..s.transactions[auth_id] },
                )
            }
            &&& !s.records.contains_key((void_path(), key)) && s.transactions.contains_key(auth_id)
                && s.transactions[auth_id].status != BankStatus::Authorized ==> s1 == s && r
                == ReplyView::Failure {
                status: 409,
                error: "Transaction not in authorized state"@,
                code: "INVALID_STATE"@,
            }
        }),
{
}

/// A refund under a key not used before at the refund endpoint, of a
/// captured transaction, succeeds for every amount up to the transaction's
/// amount, partial refunds included, and leaves the transaction refunded
/// under the new refund id; a larger amount is refused with 409 and changes
/// nothing.
pub proof fn law_refund_any_amount_up_to_capture(
    s: BankStateView,
    key: Seq<char>,
    hash: Seq<char>,
    amount: i64,
    t: Seq<char>,
    id: Seq<char>,
)
    requires
        !s.records.contains_key((refund_path(), key)),
        s.transactions.contains_key(t),
        s.transactions[t].status == BankStatus::Captured,
    ensures
        ({
            let (s1, r) = refund_outcome(s, Some(key), hash, amount, Some(t), id);
            &&& amount <= s.transactions[t].amount_cents ==> {
                &&& r == ReplyView::Success(
                    SuccessView::Refunded(ReceiptView { id, status: "refunded"@ }),
                )
                &&& s1.transactions[t].status == BankStatus::Refunded
                &&& s1.transactions[t].refund_id == Some(id)
                &&& s1.transactions == s.transactions.insert(
                    t,
                    TxView {
                        status: BankStatus::Refunded,
                        refund_id: Some(id),
                        ..s.transactions[t]
                    },
                )
            }
            &&& amount > s.transactions[t].amount_cents ==> s1 == s && r == ReplyView::Failure {
                status: 409,
                error: "Refund amount exceeds captured amount"@,
                code: "AMOUNT_EXCEEDS_CAPTURE"@,
            }
        }),
{
}

/// A capture under a key not used before, of an authorized transaction and
/// for no more than its amount, is refused with 410 exactly when seven days
/// (604800 seconds) or more have passed since the authorization, however
/// long ago it was; otherwise it succeeds under the new capture id.
pub proof fn law_capture_refused_from_seven_days_on(
    s: BankStateView,
    key: Seq<char>,
    hash: Seq<char>,
    auth_id: Seq<char>,
    amount: i64,
    id: Seq<char>,
    now: Timestamp,
)
    requires
        !s.records.contains_key((capture_path(), key)),
        s.transactions.contains_key(auth_id),
        s.transactions[auth_id].status == BankStatus::Authorized,
        amount <= s.transactions[auth_id].amount_cents,
    ensures
        ({
            let (s1, r) = capture_outcome(s, Some(key), hash, auth_id, amount, id, now);
            let created = s.transactions[auth_id].created_at;
            let elapsed = (now.secs - created.secs) * 1_000_000_000 + (now.nanos - created.nanos);
            &&& elapsed >= 604_800_000_000_000 ==> s1 == s && r == ReplyView::Failure {
                status: 410,
                error: "Authorization expired"@,
                code: "AUTH_EXPIRED"@,
            }
            &&& elapsed < 604_800_000_000_000 ==> r == ReplyView::Success(
                SuccessView::Captured(ReceiptView { id, status: "captured"@ }),
            ) && s1.transactions == s.transactions.insert(
                auth_id,
                TxView {
                    status: BankStatus::Captured,
                    capture_id: Some(id),
                    ..s.transactions[auth_id]
                },
            )
        }),
{
}

/// An authorization under a key not used before is decided by the card
/// alone: a number that fails the Luhn check or is not a known card is
/// refused with 422, the expired card with 422, an amount above the card's
/// balance with 402, each changing nothing; any other amount is authorized
/// under the new id, recorded as an authorized transaction of that amount on
/// that card made at `now`, with every other transaction as it was.
pub proof fn law_authorize_decided_by_card(
    s: BankStateView,
    key: Seq<char>,
    hash: Seq<char>,
    amount: i64,
    number: Seq<char>,
    id: Seq<char>,
    now: Timestamp,
)
    requires
        !s.records.contains_key((auth_path(), key)),
    ensures
        ({
            let (s1, r) = authorize_outcome(s, Some(key), hash, amount, number, id, now);
            let card = find_card(test_card_table(), number);
            &&& !luhn_valid(number) ==> s1 == s && r == ReplyView::Failure {
                status: 422,
                error: "Invalid card number"@,
                code: "INVALID_CARD"@,
            }
            &&& luhn_valid(number) && card is None ==> s1 == s && r == ReplyView::Failure {
                status: 422,
                error: "Card not found"@,
                code: "CARD_NOT_FOUND"@,
            }
            &&& luhn_valid(number) && card is Some && card->0.expiry != "03/2020"@ && amount
                > card->0.balance_cents ==> s1 == s && r == ReplyView::Failure {
                status: 402,
                error: "Insufficient funds"@,
                code: "INSUFFICIENT_FUNDS"@,
            }
            &&& luhn_valid(number) && card is Some && card->0.expiry != "03/2020"@ && amount
                <= card->0.balance_cents ==> {
                &&& r == ReplyView::Success(
                    SuccessView::Authorized(ReceiptView { id, status: "authorized"@ }),
                )
                &&& s1.transactions == s.transactions.insert(
                    id,
                    TxView {
                        id,
                        status: BankStatus::Authorized,
                        amount_cents: amount,
                        card_number: number,
                        created_at: now,
                        capture_id: None,
                        refund_id: None,
                    },
                )
            }
        }),
{
    lemma_found_card_has_number(test_card_table(), number);
}

/// A capture under a key not used before is refused with 404 when no
/// transaction has the id, with 409 when the transaction is not authorized or
/// the amount exceeds the authorized amount; each refusal changes nothing.
pub proof fn law_capture_refusals(
    s: BankStateView,
    key: Seq<char>,
    hash: Seq<char>,
    auth_id: Seq<char>,
    amount: i64,
    id: Seq<char>,
    now: Timestamp,
)
    requires
        !s.records.contains_key((capture_path(), key)),
    ensures
        ({
            let (s1, r) = capture_outcome(s, Some(key), hash, auth_id, amount, id, now);
            &&& !s.transactions.contains_key(auth_id) ==> s1 == s && r == ReplyView::Failure {
                status: 404,
                error: "Authorization not found"@,
                code: "AUTH_NOT_FOUND"@,
            }
            &&& s.transactions.contains_key(auth_id) && s.transactions[auth_id].status
                != BankStatus::Authorized ==> s1 == s && r == ReplyView::Failure {
                status: 409,
                error: "Transaction not in authorized state"@,
                code: "INVALID_STATE"@,
            }
            &&& s.transactions.contains_key(auth_id) && s.transactions[auth_id].status
                == BankStatus::Authorized && amount > s.transactions[auth_id].amount_cents ==> s1 == s
                && r == ReplyView::Failure {
                status: 409,
                error: "Capture amount exceeds authorized amount"@,
                code: "AMOUNT_EXCEEDS_AUTH"@,
            }
        }),
{
}

} // verus!
