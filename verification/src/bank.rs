//! The gateway's side of talking to the bank: the errors a call can end in,
//! how a bank reply is classified, which failures are retried and after how
//! long, and the addresses of the bank's endpoints.
use vstd::prelude::*;
use crate::text::{decimal_text, push_decimal, str_eq};

pub mod types;

verus! {

/// Why a call to the bank did not succeed.
#[derive(Debug, Clone)]
pub enum BankError {
    ServerError { status: u16 },
    Timeout,
    Network(String),
    InsufficientFunds,
    CardDeclined { reason: String },
    InvalidCard,
    AuthExpired,
    StateConflict { message: String },
}

/// A bank error with its texts taken as character sequences.
pub enum BankErrorView {
    ServerError { status: u16 },
    Timeout,
    Network(Seq<char>),
    InsufficientFunds,
    CardDeclined { reason: Seq<char> },
    InvalidCard,
    AuthExpired,
    StateConflict { message: Seq<char> },
}

impl View for BankError {
    type V = BankErrorView;

    open spec fn view(&self) -> BankErrorView {
        match self {
            BankError::ServerError { status } => BankErrorView::ServerError { status: *status },
            BankError::Timeout => BankErrorView::Timeout,
            BankError::Network(m) => BankErrorView::Network(m@),
            BankError::InsufficientFunds => BankErrorView::InsufficientFunds,
            BankError::CardDeclined { reason } => BankErrorView::CardDeclined { reason: reason@ },
            BankError::InvalidCard => BankErrorView::InvalidCard,
            BankError::AuthExpired => BankErrorView::AuthExpired,
            BankError::StateConflict { message } => BankErrorView::StateConflict {
                message: message@,
            },
        }
    }
}

/// Transient failures, worth another try: the bank's 5xx answers, timeouts
/// and network faults.
pub open spec fn is_transient(e: BankErrorView) -> bool {
    e is ServerError || e is Timeout || e is Network
}

/// The human-readable text of a bank error.
pub open spec fn bank_error_text(e: BankErrorView) -> Seq<char> {
    match e {
        BankErrorView::ServerError { status } => "bank 5xx: "@ + decimal_text(status as nat),
        BankErrorView::Timeout => "timeout"@,
        BankErrorView::Network(m) => "network: "@ + m,
        BankErrorView::InsufficientFunds => "insufficient funds"@,
        BankErrorView::CardDeclined { reason } => "card declined: "@ + reason,
        BankErrorView::InvalidCard => "invalid card"@,
        BankErrorView::AuthExpired => "auth expired"@,
        BankErrorView::StateConflict { message } => "state conflict: "@ + message,
    }
}

impl BankError {
    /// Whether the failure is transient and the call may be tried again.
    pub fn is_retryable(&self) -> (r: bool)
        ensures
            r == is_transient(self@),
    {
        match self {
            BankError::ServerError { .. } | BankError::Timeout | BankError::Network(_) => true,
            _ => false,
        }
    }

    /// The human-readable text of the error.
    pub fn message(&self) -> (m: String)
        ensures
            m@ == bank_error_text(self@),
    {
        match self {
            BankError::ServerError { status } => {
                let mut m = String::from_str("bank 5xx: ");
                push_decimal(&mut m, *status as u64);
                m
            },
            BankError::Timeout => String::from_str("timeout"),
            BankError::Network(detail) => {
                let mut m = String::from_str("network: ");
                m.append(detail.as_str());
                m
            },
            BankError::InsufficientFunds => String::from_str("insufficient funds"),
            BankError::CardDeclined { reason } => {
                let mut m = String::from_str("card declined: ");
                m.append(reason.as_str());
                m
            },
            BankError::InvalidCard => String::from_str("invalid card"),
            BankError::AuthExpired => String::from_str("auth expired"),
            BankError::StateConflict { message } => {
                let mut m = String::from_str("state conflict: ");
                m.append(message.as_str());
                m
            },
        }
    }
}

/// The string that the JSON document in `body` holds under the key `field`
/// of its top-level object, if any; a body that is not JSON holds none.
pub uninterp spec fn json_str_field(body: Seq<u8>, field: Seq<char>) -> Option<Seq<char>>;

/// Parses `body` with `serde_json::from_slice` into a `serde_json::Value`
/// (`Value::Null` when it is not JSON), then reads `field` with
/// `Value::get` and `Value::as_str`. Trusted to return what
/// `json_str_field` names, a function of the body and the field alone.
#[verifier::external_body]
fn json_string_field(body: &[u8], field: &str) -> (r: Option<String>)
    ensures
        match r {
            Some(s) => json_str_field(body@, field@) == Some(s@),
            None => json_str_field(body@, field@) is None,
        },
{
    let doc: serde_json::Value = serde_json::from_slice(body).unwrap_or_default();
    doc.get(field).and_then(serde_json::Value::as_str).map(str::to_string)
}

/// The error a 422 answer stands for, given the `code` and `error` strings
/// of its body.
pub open spec fn unprocessable_error(code: Option<Seq<char>>, error: Option<Seq<char>>) -> BankErrorView {
    let c = match code {
        Some(c) => c,
        None => ""@,
    };
    if c == "INVALID_CARD"@ || c == "CARD_NOT_FOUND"@ {
        BankErrorView::InvalidCard
    } else if c == "CARD_EXPIRED"@ {
        BankErrorView::AuthExpired
    } else {
        BankErrorView::CardDeclined {
            reason: match error {
                Some(e) => e,
                None => "unknown"@,
            },
        }
    }
}

/// The message of a client-error answer other than 402 and 422: the `error`
/// string of its body, or the status itself when the body has none.
pub open spec fn conflict_message(status: u16, error: Option<Seq<char>>) -> Seq<char> {
    match error {
        Some(e) => e,
        None => "bank answered "@ + decimal_text(status as nat),
    }
}

/// What a bank answer with HTTP status `status` and body `body` means:
/// `None` for success, else the error it stands for. Client errors (4xx)
/// are final; every other failed status counts as a server error.
pub open spec fn reply_error(status: u16, body: Seq<u8>) -> Option<BankErrorView> {
    if status == 200 {
        None
    } else if status == 402 {
        Some(BankErrorView::InsufficientFunds)
    } else if status == 422 {
        Some(unprocessable_error(json_str_field(body, "code"@), json_str_field(body, "error"@)))
    } else if 400 <= status < 500 {
        Some(
            BankErrorView::StateConflict {
                message: conflict_message(status, json_str_field(body, "error"@)),
            },
        )
    } else {
        Some(BankErrorView::ServerError { status })
    }
}

/// A bank answer with a client-error status (4xx) is never transient, so it
/// is never retried.
pub proof fn law_client_errors_are_final(status: u16, body: Seq<u8>)
    requires
        400 <= status < 500,
    ensures
        reply_error(status, body) is Some,
        !is_transient(reply_error(status, body)->0),
{
}

/// The error codes a 422 answer can carry are distinct texts.
proof fn lemma_card_codes_distinct()
    ensures
        ""@ != "INVALID_CARD"@,
        ""@ != "CARD_NOT_FOUND"@,
        ""@ != "CARD_EXPIRED"@,
        "CARD_EXPIRED"@ != "INVALID_CARD"@,
        "CARD_EXPIRED"@ != "CARD_NOT_FOUND"@,
{
    reveal_strlit("");
    reveal_strlit("INVALID_CARD");
    reveal_strlit("CARD_NOT_FOUND");
    reveal_strlit("CARD_EXPIRED");
    assert(""@.len() == 0);
    assert("INVALID_CARD"@.len() == 12);
    assert("CARD_NOT_FOUND"@.len() == 14);
    assert("CARD_EXPIRED"@[0] != "INVALID_CARD"@[0]);
    assert("CARD_EXPIRED"@[5] != "CARD_NOT_FOUND"@[5]);
}

/// The error that a 422 answer stands for, given the `code` and `error`
/// strings read from its body.
pub fn unprocessable_reply(code: Option<String>, error: Option<String>) -> (e: BankError)
    ensures
        e@ == unprocessable_error(
            match code { Some(c) => Some(c@), None => None },
            match error { Some(m) => Some(m@), None => None },
        ),
{
    proof {
        lemma_card_codes_distinct();
    }
    let (invalid, expired) = match &code {
        Some(c) => (
            str_eq(c.as_str(), "INVALID_CARD") || str_eq(c.as_str(), "CARD_NOT_FOUND"),
            str_eq(c.as_str(), "CARD_EXPIRED"),
        ),
        None => (false, false),
    };
    if invalid {
        BankError::InvalidCard
    } else if expired {
        BankError::AuthExpired
    } else {
        match error {
            Some(reason) => BankError::CardDeclined { reason },
            None => BankError::CardDeclined { reason: String::from_str("unknown") },
        }
    }
}

/// Classifies a bank answer: `Ok` for success (status 200), else the error
/// it stands for; the body of a 422 or other 4xx answer says which.
pub fn classify_reply(status: u16, body: &[u8]) -> (r: Result<(), BankError>)
    ensures
        match r {
            Ok(()) => reply_error(status, body@) is None,
            Err(e) => reply_error(status, body@) == Some(e@),
        },
{
    if status == 200 {
        Ok(())
    } else if status == 402 {
        Err(BankError::InsufficientFunds)
    } else if status == 422 {
        let code = json_string_field(body, "code");
        let error = json_string_field(body, "error");
        Err(unprocessable_reply(code, error))
    } else if 400 <= status && status < 500 {
        let message = match json_string_field(body, "error") {
            Some(e) => e,
            None => {
                let mut m = String::from_str("bank answered ");
                push_decimal(&mut m, status as u64);
                m
            },
        };
        Err(BankError::StateConflict { message })
    } else {
        Err(BankError::ServerError { status })
    }
}

/// How many times a request is sent to the bank at most.
pub const MAX_ATTEMPTS: u32 = 5;

/// The pause before the first retry, doubled before each later one.
pub const BASE_DELAY_MS: u64 = 200;

/// No pause between tries is longer than this.
pub const MAX_DELAY_MS: u64 = 2000;

/// Random jitter added to a pause lies below this.
pub const JITTER_SPAN_MS: u64 = 200;

/// The exponential part of the pause after the `failures`-th failed try.
pub open spec fn exp_delay(failures: nat) -> nat
    decreases failures,
{
    if failures <= 1 {
        BASE_DELAY_MS as nat
    } else {
        2 * exp_delay((failures - 1) as nat)
    }
}

/// The pause after the `failures`-th failed try, given a random number.
pub open spec fn backoff_delay(failures: nat, random: u64) -> nat {
    let d = exp_delay(failures) + (random % JITTER_SPAN_MS) as nat;
    if d < MAX_DELAY_MS { d } else { MAX_DELAY_MS as nat }
}

/// Whether a failure that leaves `failures` failed tries behind is retried.
pub open spec fn retries(failures: nat, e: BankErrorView) -> bool {
    failures < MAX_ATTEMPTS && is_transient(e)
}

/// What to do after a try failed.
pub enum RetryDecision {
    RetryAfter { delay_ms: u64 },
    GiveUp(BankError),
}

/// The retry bookkeeping of one request: how many tries have failed.
pub struct RetryState {
    failed: u32,
}

impl RetryState {
    /// The number of tries that have failed so far.
    pub closed spec fn failures(&self) -> nat {
        self.failed as nat
    }

    /// No try has been made yet.
    pub fn new() -> (s: RetryState)
        ensures
            s.failures() == 0,
    {
        RetryState { failed: 0 }
    }

    /// Records a failed try and decides, with the given random number for
    /// jitter, whether to give up (with that error) or retry after a pause.
    pub fn decide(&mut self, err: BankError, random: u64) -> (d: RetryDecision)
        requires
            old(self).failures() < MAX_ATTEMPTS,
        ensures
            final(self).failures() == old(self).failures() + 1,
            match d {
                RetryDecision::RetryAfter { delay_ms } => retries(final(self).failures(), err@)
                    && delay_ms == backoff_delay(final(self).failures(), random),
                RetryDecision::GiveUp(e) => !retries(final(self).failures(), err@) && e@ == err@,
            },
    {
        self.failed = self.failed + 1;
        if self.failed >= MAX_ATTEMPTS || !err.is_retryable() {
            return RetryDecision::GiveUp(err);
        }
        let mut exp: u64 = BASE_DELAY_MS;
        let mut i: u32 = 1;
        while i < self.failed
            invariant
                1 <= i <= self.failed < MAX_ATTEMPTS,
                exp == exp_delay(i as nat),
                exp <= 1600,
            decreases self.failed - i,
        {
            exp = exp * 2;
            i = i + 1;
            assert(exp == exp_delay(i as nat));
            assert(exp <= 1600) by {
                assert(i <= 4);
                assert(exp_delay(1) == 200);
                assert(exp_delay(2) == 400);
                assert(exp_delay(3) == 800);
                assert(exp_delay(4) == 1600);
            }
        }
        let d = exp + random % JITTER_SPAN_MS;
        let delay_ms = if d < MAX_DELAY_MS { d } else { MAX_DELAY_MS };
        RetryDecision::RetryAfter { delay_ms }
    }

    /// Records a failed try and decides whether to retry, drawing the jitter
    /// of the pause at random.
    pub fn after_failure(&mut self, err: BankError) -> (d: RetryDecision)
        requires
            old(self).failures() < MAX_ATTEMPTS,
        ensures
            final(self).failures() == old(self).failures() + 1,
            match d {
                RetryDecision::RetryAfter { delay_ms } => retries(final(self).failures(), err@)
                    && exp_delay(final(self).failures()) <= delay_ms < exp_delay(
                    final(self).failures(),
                ) + JITTER_SPAN_MS,
                RetryDecision::GiveUp(e) => !retries(final(self).failures(), err@) && e@ == err@,
            },
    {
        let random = random_u64();
        let d = self.decide(err, random);
        proof {
            if d is RetryAfter {
                lemma_backoff_within_jitter(self.failures(), random);
            }
        }
        d
    }
}

/// Calls `rand::random::<u64>()`. Nothing is claimed of the number drawn.
#[verifier::external_body]
fn random_u64() -> u64 {
    rand::random::<u64>()
}

/// For the tries that are retried (at most four failures behind), the
/// pause is the exponential delay plus the jitter, never capped.
pub proof fn lemma_backoff_within_jitter(failures: nat, random: u64)
    requires
        1 <= failures < MAX_ATTEMPTS,
    ensures
        backoff_delay(failures, random) == exp_delay(failures) + (random % JITTER_SPAN_MS) as nat,
        exp_delay(failures) <= backoff_delay(failures, random) < exp_delay(failures)
            + JITTER_SPAN_MS,
        backoff_delay(failures, random) < MAX_DELAY_MS,
{
    assert(exp_delay(1) == 200);
    assert(exp_delay(2) == 400);
    assert(exp_delay(3) == 800);
    assert(exp_delay(4) == 1600);
}

/// A request is sent at most `MAX_ATTEMPTS` times: a failure is retried
/// only while fewer failures than that lie behind, and a failure that is
/// not transient is never retried.
pub proof fn law_retries_are_bounded(failures: nat, e: BankErrorView)
    ensures
        retries(failures, e) ==> failures + 1 <= MAX_ATTEMPTS,
        !is_transient(e) ==> !retries(failures, e),
        failures >= MAX_ATTEMPTS ==> !retries(failures, e),
{
}

/// The bank operations the gateway calls.
#[derive(Debug, Clone, Copy, PartialEq, Eq, Structural)]
pub enum BankOperation {
    Authorize,
    Capture,
    Void,
    Refund,
}

/// The path of an operation's endpoint.
pub open spec fn operation_path(op: BankOperation) -> Seq<char> {
    match op {
        BankOperation::Authorize => "/api/v1/authorizations"@,
        BankOperation::Capture => "/api/v1/captures"@,
        BankOperation::Void => "/api/v1/voids"@,
        BankOperation::Refund => "/api/v1/refunds"@,
    }
}

impl BankOperation {
    /// The path of the operation's endpoint.
    pub fn path(&self) -> (p: &'static str)
        ensures
            p@ == operation_path(*self),
    {
        match self {
            BankOperation::Authorize => "/api/v1/authorizations",
            BankOperation::Capture => "/api/v1/captures",
            BankOperation::Void => "/api/v1/voids",
            BankOperation::Refund => "/api/v1/refunds",
        }
    }

    /// The full address of the operation's endpoint at the bank `base_url`.
    pub fn url(&self, base_url: &str) -> (u: String)
        ensures
            u@ == base_url@ + operation_path(*self),
    {
        let mut u = String::from_str(base_url);
        u.append(self.path());
        u
    }
}

/// The address at which the bank reports on the authorization `auth_id`.
pub fn auth_status_url(base_url: &str, auth_id: &str) -> (u: String)
    ensures
        u@ == base_url@ + "/api/v1/authorizations/"@ + auth_id@,
{
    let mut u = String::from_str(base_url);
    u.append("/api/v1/authorizations/");
    u.append(auth_id);
    u
}

/// Classifies the bank's answer to a status query: only 200 is success.
pub fn auth_status_reply(status: u16) -> (r: Result<(), BankError>)
    ensures
        match r {
            Ok(()) => status == 200,
            Err(e) => status != 200 && e@ == BankErrorView::ServerError { status },
        },
{
    if status == 200 {
        Ok(())
    } else {
        Err(BankError::ServerError { status })
    }
}

} // verus!
