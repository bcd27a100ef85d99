//! The mock bank's operations on its ledger. Every operation first reads the
//! idempotency key and looks for an earlier answer under it: the same request
//! (same fingerprint) is answered again with the stored answer, and another
//! request under a used key is refused. Only successful answers are stored.
use vstd::prelude::*;
use crate::mock_bank::cards::{find_card, get_card, luhn_valid, test_card_table, validate_luhn};
use crate::mock_bank::models::{
    AuthStatusResponse, AuthorizeRequest, AuthorizeResponse, BankErrorResponse, CaptureRequest, CaptureResponse,
    ReceiptView, RefundRequest, RefundResponse, VoidRequest, VoidResponse,
};
use crate::mock_bank::state::{
    BankState, BankStateView, BankStatus, BankSuccess, BankTransaction, IdempotencyRecord,
    RecordView, SuccessView, Timestamp, TxView, nanos_since_epoch, opt_text,
};
use crate::text::str_eq;

verus! {

/// How long an authorization can be captured: seven days, in nanoseconds.
pub open spec fn auth_ttl_nanos() -> int {
    604_800_000_000_000int
}

/// An authorization made at `created` has expired at `now`: at least seven
/// whole days lie between the two moments.
pub open spec fn auth_expired(created: Timestamp, now: Timestamp) -> bool {
    nanos_since_epoch(now) - nanos_since_epoch(created) >= auth_ttl_nanos()
}

/// Whether an authorization made at `created` has expired at `now`.
pub fn is_auth_expired(created: Timestamp, now: Timestamp) -> (r: bool)
    ensures
        r == auth_expired(created, now),
        r == ((now.secs - created.secs) * 1_000_000_000 + (now.nanos - created.nanos)
            >= 604_800_000_000_000),
{
    let secs: i128 = (now.secs as i128) - (created.secs as i128);
    let nanos: i128 = (now.nanos as i128) - (created.nanos as i128);
    secs * 1_000_000_000 + nanos >= 604_800_000_000_000
}

/// The endpoint path of authorizations.
pub open spec fn auth_path() -> Seq<char> {
    "/api/v1/authorizations"@
}

/// The endpoint path of captures.
pub open spec fn capture_path() -> Seq<char> {
    "/api/v1/captures"@
}

/// The endpoint path of voids.
pub open spec fn void_path() -> Seq<char> {
    "/api/v1/voids"@
}

/// The endpoint path of refunds.
pub open spec fn refund_path() -> Seq<char> {
    "/api/v1/refunds"@
}

/// How the bank answers a request.
#[derive(Debug)]
pub enum BankReply {
    /// 200 with the answer.
    Success(BankSuccess),
    /// 200 with a stored answer, marked as replayed.
    Replayed(BankSuccess),
    /// A refusal with its HTTP status and body.
    Failure { status: u16, body: BankErrorResponse },
}

/// An answer with its texts taken as character sequences.
pub enum ReplyView {
    Success(SuccessView),
    Replayed(SuccessView),
    Failure { status: u16, error: Seq<char>, code: Seq<char> },
}

impl View for BankReply {
    type V = ReplyView;

    open spec fn view(&self) -> ReplyView {
        match self {
            BankReply::Success(s) => ReplyView::Success(s@),
            BankReply::Replayed(s) => ReplyView::Replayed(s@),
            BankReply::Failure { status, body } => ReplyView::Failure {
                status: *status,
                error: body.error@,
                code: body.code@,
            },
        }
    }
}

/// A refusal.
pub open spec fn refusal(status: u16, error: Seq<char>, code: Seq<char>) -> ReplyView {
    ReplyView::Failure { status, error, code }
}

/// The answer an operation at `path` gives before it looks at the ledger,
/// if any: without a key it is refused; under a key used before at that path
/// it is replayed when the fingerprint agrees and refused otherwise.
pub open spec fn idempotency_gate(
    s: BankStateView,
    path: Seq<char>,
    key: Option<Seq<char>>,
    hash: Seq<char>,
) -> Option<ReplyView> {
    match key {
        None => Some(
            refusal(400, "Missing Idempotency-Key header"@, "MISSING_IDEMPOTENCY_KEY"@),
        ),
        Some(k) => if s.records.contains_key((path, k)) {
            if s.records[(path, k)].request_hash == hash {
                Some(ReplyView::Replayed(s.records[(path, k)].response))
            } else {
                Some(
                    refusal(
                        422,
                        "Idempotency key reused with different request"@,
                        "IDEMPOTENCY_KEY_CONFLICT"@,
                    ),
                )
            }
        } else {
            None
        },
    }
}

/// The ledger after a successful operation: `tx` stored under `id`, and the
/// answer stored under `path` and `key`.
pub open spec fn settle(
    s: BankStateView,
    id: Seq<char>,
    tx: TxView,
    path: Seq<char>,
    key: Seq<char>,
    hash: Seq<char>,
    answer: SuccessView,
) -> BankStateView {
    BankStateView {
        transactions: s.transactions.insert(id, tx),
        records: s.records.insert((path, key), RecordView { request_hash: hash, response: answer }),
    }
}

/// An authorization of `amount` on card `number`: refused when the number
/// fails the Luhn check, is not a known card, is the expired card (whatever
/// the amount), or has too low a balance; otherwise a new authorized transaction `fresh_id`
/// created at `now`.
pub open spec fn authorize_outcome(
    s: BankStateView,
    key: Option<Seq<char>>,
    hash: Seq<char>,
    amount: i64,
    number: Seq<char>,
    fresh_id: Seq<char>,
    now: Timestamp,
) -> (BankStateView, ReplyView) {
    match idempotency_gate(s, auth_path(), key, hash) {
        Some(r) => (s, r),
        None => if !luhn_valid(number) {
            (s, refusal(422, "Invalid card number"@, "INVALID_CARD"@))
        } else {
            match find_card(test_card_table(), number) {
                None => (s, refusal(422, "Card not found"@, "CARD_NOT_FOUND"@)),
                Some(card) => if card.expiry == "03/2020"@ {
                    (s, refusal(422, "Card expired"@, "CARD_EXPIRED"@))
                } else if card.balance_cents < amount {
                    (s, refusal(402, "Insufficient funds"@, "INSUFFICIENT_FUNDS"@))
                } else {
                    let answer = SuccessView::Authorized(
                        ReceiptView { id: fresh_id, status: "authorized"@ },
                    );
                    let tx = TxView {
                        id: fresh_id,
                        status: BankStatus::Authorized,
                        amount_cents: amount,
                        card_number: card.number,
                        created_at: now,
                        capture_id: None,
                        refund_id: None,
                    };
                    (
                        settle(s, fresh_id, tx, auth_path(), key.unwrap(), hash, answer),
                        ReplyView::Success(answer),
                    )
                },
            }
        },
    }
}

/// A capture of `amount` under authorization `auth_id` at time `now`:
/// refused when the authorization is unknown, no longer authorized, smaller
/// than the amount, or seven days old or older; otherwise the transaction is
/// captured under the new capture id `fresh_id`.
pub open spec fn capture_outcome(
    s: BankStateView,
    key: Option<Seq<char>>,
    hash: Seq<char>,
    auth_id: Seq<char>,
    amount: i64,
    fresh_id: Seq<char>,
    now: Timestamp,
) -> (BankStateView, ReplyView) {
    match idempotency_gate(s, capture_path(), key, hash) {
        Some(r) => (s, r),
        None => if !s.transactions.contains_key(auth_id) {
            (s, refusal(404, "Authorization not found"@, "AUTH_NOT_FOUND"@))
        } else {
            let tx = s.transactions[auth_id];
            if tx.status != BankStatus::Authorized {
                (s, refusal(409, "Transaction not in authorized state"@, "INVALID_STATE"@))
            } else if amount > tx.amount_cents {
                (
                    s,
                    refusal(409, "Capture amount exceeds authorized amount"@, "AMOUNT_EXCEEDS_AUTH"@),
                )
            } else if auth_expired(tx.created_at, now) {
                (s, refusal(410, "Authorization expired"@, "AUTH_EXPIRED"@))
            } else {
                let answer = SuccessView::Captured(ReceiptView { id: fresh_id, status: "captured"@ });
                let captured = TxView {
                    status: BankStatus::Captured,
                    capture_id: Some(fresh_id),
                    ..tx
                };
                (
                    settle(s, auth_id, captured, capture_path(), key.unwrap(), hash, answer),
                    ReplyView::Success(answer),
                )
            }
        },
    }
}

/// A void of authorization `auth_id`: refused when it is unknown or no
/// longer authorized; otherwise the transaction is voided, answered with the
/// new void id `fresh_id`.
pub open spec fn void_outcome(
    s: BankStateView,
    key: Option<Seq<char>>,
    hash: Seq<char>,
    auth_id: Seq<char>,
    fresh_id: Seq<char>,
) -> (BankStateView, ReplyView) {
    match idempotency_gate(s, void_path(), key, hash) {
        Some(r) => (s, r),
        None => if !s.transactions.contains_key(auth_id) {
            (s, refusal(404, "Authorization not found"@, "AUTH_NOT_FOUND"@))
        } else {
            let tx = s.transactions[auth_id];
            if tx.status != BankStatus::Authorized {
                (s, refusal(409, "Transaction not in authorized state"@, "INVALID_STATE"@))
            } else {
                let answer = SuccessView::Voided(ReceiptView { id: fresh_id, status: "voided"@ });
                let voided = TxView { status: BankStatus::Voided, ..tx };
                (
                    settle(s, auth_id, voided, void_path(), key.unwrap(), hash, answer),
                    ReplyView::Success(answer),
                )
            }
        },
    }
}

/// Whether `target` is a transaction the refund of `capture_id` may act on:
/// one captured under that id, or none when no transaction was.
pub open spec fn refund_target(
    transactions: Map<Seq<char>, TxView>,
    capture_id: Seq<char>,
    target: Option<Seq<char>>,
) -> bool {
    match target {
        Some(id) => transactions.contains_key(id) && transactions[id].capture_id == Some(
            capture_id,
        ),
        None => forall|id: Seq<char>|
            #[trigger] transactions.contains_key(id) ==> transactions[id].capture_id != Some(
                capture_id,
            ),
    }
}

/// A transaction the refund of `capture_id` may act on.
pub open spec fn some_refund_target(
    transactions: Map<Seq<char>, TxView>,
    capture_id: Seq<char>,
) -> Option<Seq<char>> {
    if exists|id: Seq<char>|
        #[trigger] transactions.contains_key(id) && transactions[id].capture_id == Some(capture_id) {
        Some(
            choose|id: Seq<char>|
                #[trigger] transactions.contains_key(id) && transactions[id].capture_id == Some(
                    capture_id,
                ),
        )
    } else {
        None
    }
}

/// There is always a transaction (or none) the refund may act on.
pub proof fn lemma_some_refund_target(transactions: Map<Seq<char>, TxView>, capture_id: Seq<char>)
    ensures
        refund_target(transactions, capture_id, some_refund_target(transactions, capture_id)),
{
}

/// A refund of `amount` acting on the transaction `target` found for its
/// capture id: refused when there is none, when it is not captured, or when
/// the amount exceeds it; otherwise the transaction is refunded under the new
/// refund id `fresh_id`.
pub open spec fn refund_outcome(
    s: BankStateView,
    key: Option<Seq<char>>,
    hash: Seq<char>,
    amount: i64,
    target: Option<Seq<char>>,
    fresh_id: Seq<char>,
) -> (BankStateView, ReplyView) {
    match idempotency_gate(s, refund_path(), key, hash) {
        Some(r) => (s, r),
        None => match target {
            None => (s, refusal(404, "Captured transaction not found"@, "CAPTURE_NOT_FOUND"@)),
            Some(id) => {
                let tx = s.transactions[id];
                if tx.status != BankStatus::Captured {
                    (s, refusal(409, "Transaction not in captured state"@, "INVALID_STATE"@))
                } else if amount > tx.amount_cents {
                    (
                        s,
                        refusal(
                            409,
                            "Refund amount exceeds captured amount"@,
                            "AMOUNT_EXCEEDS_CAPTURE"@,
                        ),
                    )
                } else {
                    let answer = SuccessView::Refunded(
                        ReceiptView { id: fresh_id, status: "refunded"@ },
                    );
                    let refunded = TxView {
                        status: BankStatus::Refunded,
                        refund_id: Some(fresh_id),
                        ..tx
                    };
                    (
                        settle(s, id, refunded, refund_path(), key.unwrap(), hash, answer),
                        ReplyView::Success(answer),
                    )
                }
            },
        },
    }
}

/// The status text of a bank transaction.
pub open spec fn bank_status_text(s: BankStatus) -> Seq<char> {
    match s {
        BankStatus::Authorized => "authorized"@,
        BankStatus::Captured => "captured"@,
        BankStatus::Voided => "voided"@,
        BankStatus::Refunded => "refunded"@,
    }
}

/// What the bank reports of the authorization `auth_id`, if it knows it.
pub open spec fn authorization_report(s: BankStateView, auth_id: Seq<char>) -> Option<ReceiptView> {
    if s.transactions.contains_key(auth_id) {
        Some(
            ReceiptView { id: auth_id, status: bank_status_text(s.transactions[auth_id].status) },
        )
    } else {
        None
    }
}

/// What the bank reports of the authorization it made under the
/// idempotency key `key`, if it made one.
pub open spec fn authorization_report_by_key(s: BankStateView, key: Seq<char>) -> Option<ReceiptView> {
    if s.records.contains_key((auth_path(), key)) && s.records[(
        auth_path(),
        key,
    )].response is Authorized {
        authorization_report(s, s.records[(auth_path(), key)].response->Authorized_0.id)
    } else {
        None
    }
}

/// The status text of a bank transaction.
fn status_text_of(s: BankStatus) -> (t: String)
    ensures
        t@ == bank_status_text(s),
{
    match s {
        BankStatus::Authorized => String::from_str("authorized"),
        BankStatus::Captured => String::from_str("captured"),
        BankStatus::Voided => String::from_str("voided"),
        BankStatus::Refunded => String::from_str("refunded"),
    }
}

/// A refusal with its status, message and code.
fn refuse(status: u16, error: &str, code: &str) -> (r: BankReply)
    ensures
        r@ == refusal(status, error@, code@),
{
    BankReply::Failure {
        status,
        body: BankErrorResponse { error: String::from_str(error), code: String::from_str(code) },
    }
}

/// Calls `uuid::Uuid::new_v4()` and renders it as text. Nothing is claimed
/// of the id drawn.
#[verifier::external_body]
fn new_id() -> String {
    uuid::Uuid::new_v4().to_string()
}

/// Calls `chrono::Utc::now()` and reads it as whole seconds since the Unix
/// epoch (`timestamp`) and the nanoseconds past them
/// (`timestamp_subsec_nanos`). Nothing is claimed of the time read.
#[verifier::external_body]
fn current_time() -> Timestamp {
    let t = chrono::Utc::now();
    Timestamp { secs: t.timestamp(), nanos: t.timestamp_subsec_nanos() }
}

/// The idempotency key of a request, or the refusal of a request without one.
pub fn get_idempotency_key(header: Option<String>) -> (r: Result<String, BankReply>)
    ensures
        match header {
            Some(h) => r matches Ok(k) && k@ == h@,
            None => r matches Err(e) && e@ == refusal(
                400,
                "Missing Idempotency-Key header"@,
                "MISSING_IDEMPOTENCY_KEY"@,
            ),
        },
{
    match header {
        Some(h) => Ok(h),
        None => Err(refuse(400, "Missing Idempotency-Key header", "MISSING_IDEMPOTENCY_KEY")),
    }
}

impl BankState {
    /// Reports on the authorization `auth_id`, if the bank knows it.
    pub fn authorization_status(&self, auth_id: &String) -> (r: Option<AuthStatusResponse>)
        requires
            self.wf(),
        ensures
            match r {
                Some(a) => authorization_report(self@, auth_id@) == Some(a@),
                None => authorization_report(self@, auth_id@) is None,
            },
    {
        match self.transaction(auth_id) {
            Some(t) => Some(AuthStatusResponse { auth_id: t.id, status: status_text_of(t.status) }),
            None => None,
        }
    }

    /// Reports on the authorization made under the idempotency key `key`, if
    /// any; a caller that never heard back from an authorization finds it
    /// this way.
    pub fn authorization_status_by_key(&self, key: &String) -> (r: Option<AuthStatusResponse>)
        requires
            self.wf(),
        ensures
            match r {
                Some(a) => authorization_report_by_key(self@, key@) == Some(a@),
                None => authorization_report_by_key(self@, key@) is None,
            },
    {
        let path = String::from_str("/api/v1/authorizations");
        match self.record(&path, key) {
            Some((_, BankSuccess::Authorized(answer))) => self.authorization_status(&answer.auth_id),
            _ => None,
        }
    }

    /// Looks for an earlier answer under `key` at `path`: `Ok(None)` when
    /// there is none, the stored answer when the fingerprint agrees, and a
    /// refusal when it does not.
    pub fn check_idempotency(&self, path: &String, key: &String, request_hash: &String) -> (r:
        Result<Option<BankSuccess>, BankReply>)
        requires
            self.wf(),
        ensures
            match r {
                Ok(None) => idempotency_gate(self@, path@, Some(key@), request_hash@) is None,
                Ok(Some(a)) => idempotency_gate(self@, path@, Some(key@), request_hash@) == Some(
                    ReplyView::Replayed(a@),
                ),
                Err(e) => idempotency_gate(self@, path@, Some(key@), request_hash@) == Some(e@)
                    && e@ is Failure,
            },
    {
        match self.record(path, key) {
            None => Ok(None),
            Some((h, answer)) => {
                if h == *request_hash {
                    Ok(Some(answer))
                } else {
                    Err(
                        refuse(
                            422,
                            "Idempotency key reused with different request",
                            "IDEMPOTENCY_KEY_CONFLICT",
                        ),
                    )
                }
            },
        }
    }

    /// Stores a transaction and the answer given under `key` at `path`.
    pub fn save_transaction_and_idempotency(
        &mut self,
        path: String,
        key: String,
        request_hash: String,
        tx: BankTransaction,
        response: BankSuccess,
    )
        requires
            old(self).wf(),
        ensures
            final(self).wf(),
            final(self)@ == settle(
                old(self)@,
                tx.id@,
                tx@,
                path@,
                key@,
                request_hash@,
                response@,
            ),
    {
        self.put_transaction(tx);
        self.put_record(IdempotencyRecord { path, key, request_hash, response });
    }

    /// Authorizes a payment, with the new transaction's id and the current
    /// time given.
    pub fn authorize_with(
        &mut self,
        key: Option<String>,
        request_hash: String,
        req: &AuthorizeRequest,
        fresh_id: String,
        now: Timestamp,
    ) -> (r: BankReply)
        requires
            old(self).wf(),
        ensures
            final(self).wf(),
            (final(self)@, r@) == authorize_outcome(
                old(self)@,
                opt_text(key),
                request_hash@,
                req.amount_cents,
                req.card.number@,
                fresh_id@,
                now,
            ),
    {
        let key = match get_idempotency_key(key) {
            Ok(k) => k,
            Err(e) => return e,
        };
        let path = String::from_str("/api/v1/authorizations");
        match self.check_idempotency(&path, &key, &request_hash) {
            Ok(Some(answer)) => return BankReply::Replayed(answer),
            Err(e) => return e,
            Ok(None) => {},
        }
        if !validate_luhn(req.card.number.as_str()) {
            return refuse(422, "Invalid card number", "INVALID_CARD");
        }
        let card = match get_card(req.card.number.as_str()) {
            Some(c) => c,
            None => return refuse(422, "Card not found", "CARD_NOT_FOUND"),
        };
        if str_eq(card.expiry, "03/2020") {
            return refuse(422, "Card expired", "CARD_EXPIRED");
        }
        if card.balance_cents < req.amount_cents {
            return refuse(402, "Insufficient funds", "INSUFFICIENT_FUNDS");
        }
        let tx = BankTransaction {
            id: fresh_id.clone(),
            status: BankStatus::Authorized,
            amount_cents: req.amount_cents,
            card_number: String::from_str(card.number),
            created_at: now,
            capture_id: None,
            refund_id: None,
        };
        let response = BankSuccess::Authorized(
            AuthorizeResponse { auth_id: fresh_id, status: String::from_str("authorized") },
        );
        let answer = response.copy();
        self.save_transaction_and_idempotency(path, key, request_hash, tx, response);
        BankReply::Success(answer)
    }

    /// Authorizes a payment under a newly drawn transaction id at the
    /// current time.
    pub fn authorize(&mut self, key: Option<String>, request_hash: String, req: &AuthorizeRequest) -> (r:
        BankReply)
        requires
            old(self).wf(),
        ensures
            final(self).wf(),
            exists|id: Seq<char>, now: Timestamp|
                #[trigger] authorize_outcome(
                    old(self)@,
                    opt_text(key),
                    request_hash@,
                    req.amount_cents,
                    req.card.number@,
                    id,
                    now,
                ) == (final(self)@, r@),
    {
        let id = new_id();
        let now = current_time();
        self.authorize_with(key, request_hash, req, id, now)
    }

    /// Captures an authorization, with the new capture id and the current
    /// time given.
    pub fn capture_with(
        &mut self,
        key: Option<String>,
        request_hash: String,
        req: &CaptureRequest,
        fresh_id: String,
        now: Timestamp,
    ) -> (r: BankReply)
        requires
            old(self).wf(),
        ensures
            final(self).wf(),
            (final(self)@, r@) == capture_outcome(
                old(self)@,
                opt_text(key),
                request_hash@,
                req.auth_id@,
                req.amount_cents,
                fresh_id@,
                now,
            ),
    {
        let key = match get_idempotency_key(key) {
            Ok(k) => k,
            Err(e) => return e,
        };
        let path = String::from_str("/api/v1/captures");
        match self.check_idempotency(&path, &key, &request_hash) {
            Ok(Some(answer)) => return BankReply::Replayed(answer),
            Err(e) => return e,
            Ok(None) => {},
        }
        let mut tx = match self.transaction(&req.auth_id) {
            Some(t) => t,
            None => return refuse(404, "Authorization not found", "AUTH_NOT_FOUND"),
        };
        if tx.status != BankStatus::Authorized {
            return refuse(409, "Transaction not in authorized state", "INVALID_STATE");
        }
        if req.amount_cents > tx.amount_cents {
            return refuse(409, "Capture amount exceeds authorized amount", "AMOUNT_EXCEEDS_AUTH");
        }
        if is_auth_expired(tx.created_at, now) {
            return refuse(410, "Authorization expired", "AUTH_EXPIRED");
        }
        tx.status = BankStatus::Captured;
        tx.capture_id = Some(fresh_id.clone());
        let response = BankSuccess::Captured(
            CaptureResponse { capture_id: fresh_id, status: String::from_str("captured") },
        );
        let answer = response.copy();
        self.save_transaction_and_idempotency(path, key, request_hash, tx, response);
        BankReply::Success(answer)
    }

    /// Captures an authorization under a newly drawn capture id at the
    /// current time.
    pub fn capture(&mut self, key: Option<String>, request_hash: String, req: &CaptureRequest) -> (r:
        BankReply)
        requires
            old(self).wf(),
        ensures
            final(self).wf(),
            exists|id: Seq<char>, now: Timestamp|
                #[trigger] capture_outcome(
                    old(self)@,
                    opt_text(key),
                    request_hash@,
                    req.auth_id@,
                    req.amount_cents,
                    id,
                    now,
                ) == (final(self)@, r@),
    {
        let id = new_id();
        let now = current_time();
        self.capture_with(key, request_hash, req, id, now)
    }

    /// Voids an authorization, with the new void id given.
    pub fn void_with(
        &mut self,
        key: Option<String>,
        request_hash: String,
        req: &VoidRequest,
        fresh_id: String,
    ) -> (r: BankReply)
        requires
            old(self).wf(),
        ensures
            final(self).wf(),
            (final(self)@, r@) == void_outcome(
                old(self)@,
                opt_text(key),
                request_hash@,
                req.auth_id@,
                fresh_id@,
            ),
    {
        let key = match get_idempotency_key(key) {
            Ok(k) => k,
            Err(e) => return e,
        };
        let path = String::from_str("/api/v1/voids");
        match self.check_idempotency(&path, &key, &request_hash) {
            Ok(Some(answer)) => return BankReply::Replayed(answer),
            Err(e) => return e,
            Ok(None) => {},
        }
        let mut tx = match self.transaction(&req.auth_id) {
            Some(t) => t,
            None => return refuse(404, "Authorization not found", "AUTH_NOT_FOUND"),
        };
        if tx.status != BankStatus::Authorized {
            return refuse(409, "Transaction not in authorized state", "INVALID_STATE");
        }
        tx.status = BankStatus::Voided;
        let response = BankSuccess::Voided(
            VoidResponse { void_id: fresh_id, status: String::from_str("voided") },
        );
        let answer = response.copy();
        self.save_transaction_and_idempotency(path, key, request_hash, tx, response);
        BankReply::Success(answer)
    }

    /// Voids an authorization under a newly drawn void id.
    pub fn void(&mut self, key: Option<String>, request_hash: String, req: &VoidRequest) -> (r:
        BankReply)
        requires
            old(self).wf(),
        ensures
            final(self).wf(),
            exists|id: Seq<char>|
                #[trigger] void_outcome(
                    old(self)@,
                    opt_text(key),
                    request_hash@,
                    req.auth_id@,
                    id,
                ) == (final(self)@, r@),
    {
        let id = new_id();
        self.void_with(key, request_hash, req, id)
    }

    /// Refunds a capture, with the new refund id given. Which transaction is
    /// refunded, should several carry the capture id, is left open.
    pub fn refund_with(
        &mut self,
        key: Option<String>,
        request_hash: String,
        req: &RefundRequest,
        fresh_id: String,
    ) -> (r: BankReply)
        requires
            old(self).wf(),
        ensures
            final(self).wf(),
            exists|target: Option<Seq<char>>|
                refund_target(old(self)@.transactions, req.capture_id@, target) && #[trigger] refund_outcome(
                    old(self)@,
                    opt_text(key),
                    request_hash@,
                    req.amount_cents,
                    target,
                    fresh_id@,
                ) == (final(self)@, r@),
    {
        let ghost any_target = some_refund_target(self@.transactions, req.capture_id@);
        proof {
            lemma_some_refund_target(self@.transactions, req.capture_id@);
        }
        let ghost k = opt_text(key);
        let ghost hash = request_hash@;
        let ghost fid = fresh_id@;
        let key = match get_idempotency_key(key) {
            Ok(k) => k,
            Err(e) => {
                assert(refund_outcome(self@, k, request_hash@, req.amount_cents, any_target, fresh_id@).1 == e@);
                return e;
            },
        };
        let path = String::from_str("/api/v1/refunds");
        match self.check_idempotency(&path, &key, &request_hash) {
            Ok(Some(answer)) => {
                let r = BankReply::Replayed(answer);
                assert(refund_outcome(self@, k, request_hash@, req.amount_cents, any_target, fresh_id@).1 == r@);
                return r;
            },
            Err(e) => {
                assert(refund_outcome(self@, k, request_hash@, req.amount_cents, any_target, fresh_id@).1 == e@);
                return e;
            },
            Ok(None) => {},
        }
        let mut tx = match self.transaction_by_capture(&req.capture_id) {
            Some(t) => t,
            None => {
                let r = refuse(404, "Captured transaction not found", "CAPTURE_NOT_FOUND");
                proof {
                    assert(refund_target(self@.transactions, req.capture_id@, None));
                    assert(refund_outcome(self@, k, hash, req.amount_cents, None, fid) == (self@, r@));
                }
                return r;
            },
        };
        let ghost found = Some(tx.id@);
        if tx.status != BankStatus::Captured {
            let r = refuse(409, "Transaction not in captured state", "INVALID_STATE");
            assert(refund_outcome(self@, k, request_hash@, req.amount_cents, found, fresh_id@).1 == r@);
            return r;
        }
        if req.amount_cents > tx.amount_cents {
            let r = refuse(409, "Refund amount exceeds captured amount", "AMOUNT_EXCEEDS_CAPTURE");
            assert(refund_outcome(self@, k, request_hash@, req.amount_cents, found, fresh_id@).1 == r@);
            return r;
        }
        tx.status = BankStatus::Refunded;
        tx.refund_id = Some(fresh_id.clone());
        let response = BankSuccess::Refunded(
            RefundResponse { refund_id: fresh_id, status: String::from_str("refunded") },
        );
        let answer = response.copy();
        self.save_transaction_and_idempotency(path, key, request_hash, tx, response);
        let r = BankReply::Success(answer);
        assert(refund_outcome(old(self)@, k, hash, req.amount_cents, found, fid) == (self@, r@));
        r
    }

    /// Refunds a capture under a newly drawn refund id.
    pub fn refund(&mut self, key: Option<String>, request_hash: String, req: &RefundRequest) -> (r:
        BankReply)
        requires
            old(self).wf(),
        ensures
            final(self).wf(),
            exists|target: Option<Seq<char>>, id: Seq<char>|
                refund_target(old(self)@.transactions, req.capture_id@, target) && #[trigger] refund_outcome(
                    old(self)@,
                    opt_text(key),
                    request_hash@,
                    req.amount_cents,
                    target,
                    id,
                ) == (final(self)@, r@),
    {
        let id = new_id();
        self.refund_with(key, request_hash, req, id)
    }
}

} // verus!
