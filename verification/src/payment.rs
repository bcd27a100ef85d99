//! Payment lifecycle: statuses, the events that move a payment between them,
//! and the transition function that enforces which moves are legal.
use vstd::prelude::*;

verus! {

/// Where a payment stands in its lifecycle.
#[derive(Debug, Clone, Copy, PartialEq, Eq, Structural)]
pub enum PaymentStatus {
    Pending,
    Authorized,
    Captured,
    Voided,
    Refunded,
}

/// The lower-case name under which a status is shown to people.
pub open spec fn status_text(s: PaymentStatus) -> Seq<char> {
    match s {
        PaymentStatus::Pending => "pending"@,
        PaymentStatus::Authorized => "authorized"@,
        PaymentStatus::Captured => "captured"@,
        PaymentStatus::Voided => "voided"@,
        PaymentStatus::Refunded => "refunded"@,
    }
}

/// Something the bank reported about a payment.
pub enum PaymentEvent {
    AuthorizationSucceeded { bank_auth_id: String },
    AuthorizationFailed { reason: String },
    CaptureSucceeded { bank_capture_id: String },
    VoidSucceeded { bank_void_id: String },
    RefundSucceeded { bank_refund_id: String },
}

/// The name of an event's variant.
pub open spec fn event_name(e: PaymentEvent) -> Seq<char> {
    match e {
        PaymentEvent::AuthorizationSucceeded { .. } => "AuthorizationSucceeded"@,
        PaymentEvent::AuthorizationFailed { .. } => "AuthorizationFailed"@,
        PaymentEvent::CaptureSucceeded { .. } => "CaptureSucceeded"@,
        PaymentEvent::VoidSucceeded { .. } => "VoidSucceeded"@,
        PaymentEvent::RefundSucceeded { .. } => "RefundSucceeded"@,
    }
}

/// The status a payment moves to when `event` happens in status `from`,
/// or `None` when the move is not allowed.
pub open spec fn next_status(from: PaymentStatus, event: PaymentEvent) -> Option<PaymentStatus> {
    match (from, event) {
        (PaymentStatus::Pending, PaymentEvent::AuthorizationSucceeded { .. }) => Some(PaymentStatus::Authorized),
        (PaymentStatus::Authorized, PaymentEvent::CaptureSucceeded { .. }) => Some(PaymentStatus::Captured),
        (PaymentStatus::Authorized, PaymentEvent::VoidSucceeded { .. }) => Some(PaymentStatus::Voided),
        (PaymentStatus::Captured, PaymentEvent::RefundSucceeded { .. }) => Some(PaymentStatus::Refunded),
        _ => None,
    }
}

/// A refused move: the status it was tried from and the event's name.
pub struct InvalidTransitionError {
    pub from: PaymentStatus,
    pub event: &'static str,
}

impl PaymentStatus {
    /// The lower-case name of the status, as it is shown to people.
    pub fn to_string(&self) -> (s: String)
        ensures
            s@ == status_text(*self),
    {
        let text: &str = match self {
            PaymentStatus::Pending => "pending",
            PaymentStatus::Authorized => "authorized",
            PaymentStatus::Captured => "captured",
            PaymentStatus::Voided => "voided",
            PaymentStatus::Refunded => "refunded",
        };
        String::from_str(text)
    }

    /// Moves the payment along its lifecycle, or refuses the move.
    pub fn apply(&self, event: &PaymentEvent) -> (r: Result<PaymentStatus, InvalidTransitionError>)
        ensures
            match r {
                Ok(s) => next_status(*self, *event) == Some(s),
                Err(e) => next_status(*self, *event) is None && e.from == *self && e.event@
                    == event_name(*event),
            },
    {
        match (self, event) {
            (PaymentStatus::Pending, PaymentEvent::AuthorizationSucceeded { .. }) => Ok(PaymentStatus::Authorized),
            (PaymentStatus::Authorized, PaymentEvent::CaptureSucceeded { .. }) => Ok(PaymentStatus::Captured),
            (PaymentStatus::Authorized, PaymentEvent::VoidSucceeded { .. }) => Ok(PaymentStatus::Voided),
            (PaymentStatus::Captured, PaymentEvent::RefundSucceeded { .. }) => Ok(PaymentStatus::Refunded),
            _ => Err(InvalidTransitionError { from: *self, event: event.name() }),
        }
    }
}

impl PaymentEvent {
    /// The name of the event's variant.
    pub fn name(&self) -> (n: &'static str)
        ensures
            n@ == event_name(*self),
    {
        match self {
            PaymentEvent::AuthorizationSucceeded { .. } => "AuthorizationSucceeded",
            PaymentEvent::AuthorizationFailed { .. } => "AuthorizationFailed",
            PaymentEvent::CaptureSucceeded { .. } => "CaptureSucceeded",
            PaymentEvent::VoidSucceeded { .. } => "VoidSucceeded",
            PaymentEvent::RefundSucceeded { .. } => "RefundSucceeded",
        }
    }
}

impl InvalidTransitionError {
    /// The human-readable text of the refusal.
    pub fn message(&self) -> (m: String)
        ensures
            m@ == "cannot transition from "@ + status_text(self.from) + " via "@ + self.event@,
    {
        let mut m = String::from_str("cannot transition from ");
        let from = self.from.to_string();
        m.append(from.as_str());
        m.append(" via ");
        m.append(self.event);
        m
    }
}

/// How far along its lifecycle a status lies; every legal move adds one.
pub open spec fn status_rank(s: PaymentStatus) -> int {
    match s {
        PaymentStatus::Pending => 0,
        PaymentStatus::Authorized => 1,
        PaymentStatus::Captured => 2,
        PaymentStatus::Voided => 2,
        PaymentStatus::Refunded => 3,
    }
}

/// The status reached by applying `events` in order from `s`, or `None` as
/// soon as one of them is refused.
pub open spec fn apply_events(s: PaymentStatus, events: Seq<PaymentEvent>) -> Option<PaymentStatus>
    decreases events.len(),
{
    if events.len() == 0 {
        Some(s)
    } else {
        match next_status(s, events[0]) {
            Some(t) => apply_events(t, events.drop_first()),
            None => None,
        }
    }
}

/// The accepted moves are exactly the four steps of the lifecycle: an
/// authorization takes a pending payment to authorized, a capture or a void
/// takes an authorized one to captured or voided, and a refund takes a
/// captured one to refunded. Each status is reached by its own event from
/// the status just before it, and every other pair is refused.
pub proof fn law_accepted_moves_are_the_lifecycle(from: PaymentStatus, event: PaymentEvent)
    ensures
        next_status(from, event) == Some(PaymentStatus::Authorized) <==> from == PaymentStatus::Pending
            && event is AuthorizationSucceeded,
        next_status(from, event) == Some(PaymentStatus::Captured) <==> from == PaymentStatus::Authorized
            && event is CaptureSucceeded,
        next_status(from, event) == Some(PaymentStatus::Voided) <==> from == PaymentStatus::Authorized
            && event is VoidSucceeded,
        next_status(from, event) == Some(PaymentStatus::Refunded) <==> from == PaymentStatus::Captured
            && event is RefundSucceeded,
        next_status(from, event) != Some(PaymentStatus::Pending),
{
}

/// Voided and refunded payments are final: no event moves them.
pub proof fn law_final_statuses_accept_nothing(event: PaymentEvent)
    ensures
        next_status(PaymentStatus::Voided, event) is None,
        next_status(PaymentStatus::Refunded, event) is None,
{
}

/// A failed authorization never moves a payment, whatever its status.
pub proof fn law_failed_authorization_moves_nothing(s: PaymentStatus, reason: String)
    ensures
        next_status(s, PaymentEvent::AuthorizationFailed { reason }) is None,
{
}

/// A void is accepted only for an authorized payment (so never for a
/// captured one), and a refund only for a captured payment.
pub proof fn law_void_needs_authorized_refund_needs_captured(s: PaymentStatus, id: String)
    ensures
        next_status(s, PaymentEvent::VoidSucceeded { bank_void_id: id }) is Some <==> s
            == PaymentStatus::Authorized,
        next_status(s, PaymentEvent::RefundSucceeded { bank_refund_id: id }) is Some <==> s
            == PaymentStatus::Captured,
{
}

/// No legal move leads back to pending.
pub proof fn law_never_back_to_pending(s: PaymentStatus, event: PaymentEvent)
    ensures
        next_status(s, event) != Some(PaymentStatus::Pending),
{
}

/// Every event in an accepted sequence moves the payment exactly one step
/// further along its lifecycle, so no status is ever visited twice.
pub proof fn law_each_accepted_event_advances(s: PaymentStatus, events: Seq<PaymentEvent>)
    ensures
        apply_events(s, events) matches Some(t) ==> status_rank(t) == status_rank(s)
            + events.len(),
    decreases events.len(),
{
    if events.len() > 0 {
        if let Some(t) = next_status(s, events[0]) {
            law_each_accepted_event_advances(t, events.drop_first());
        }
    }
}

/// A payment accepts at most three events after it is created.
pub proof fn law_at_most_three_events(events: Seq<PaymentEvent>)
    ensures
        apply_events(PaymentStatus::Pending, events) is Some ==> events.len() <= 3,
{
    law_each_accepted_event_advances(PaymentStatus::Pending, events);
}

} // verus!
