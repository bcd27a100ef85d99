//! The mock bank's ledger: its transactions, keyed by id, and the answers it
//! gave to idempotent requests, keyed by endpoint path and idempotency key.
use vstd::prelude::*;
use crate::mock_bank::models::{
    AuthorizeResponse, CaptureResponse, ReceiptView, RefundResponse, VoidResponse,
};

verus! {

/// Where a bank transaction stands.
#[derive(Debug, Clone, Copy, PartialEq, Eq, Structural)]
pub enum BankStatus {
    Authorized,
    Captured,
    Voided,
    Refunded,
}

/// A moment in UTC: whole seconds since the Unix epoch and the nanoseconds
/// past that second.
#[derive(Debug, Clone, Copy)]
pub struct Timestamp {
    pub secs: i64,
    pub nanos: u32,
}

/// The moment as a count of nanoseconds since the Unix epoch.
pub open spec fn nanos_since_epoch(t: Timestamp) -> int {
    t.secs * 1_000_000_000 + t.nanos
}

/// An authorization and what became of it.
#[derive(Debug)]
pub struct BankTransaction {
    pub id: String,
    pub status: BankStatus,
    pub amount_cents: i64,
    pub card_number: String,
    pub created_at: Timestamp,
    pub capture_id: Option<String>,
    pub refund_id: Option<String>,
}

/// A transaction with its texts taken as character sequences.
pub struct TxView {
    pub id: Seq<char>,
    pub status: BankStatus,
    pub amount_cents: i64,
    pub card_number: Seq<char>,
    pub created_at: Timestamp,
    pub capture_id: Option<Seq<char>>,
    pub refund_id: Option<Seq<char>>,
}

/// The character sequence of an optional text.
pub open spec fn opt_text(o: Option<String>) -> Option<Seq<char>> {
    match o {
        Some(s) => Some(s@),
        None => None,
    }
}

/// A copy of an optional text.
pub fn copy_opt_text(o: &Option<String>) -> (r: Option<String>)
    ensures
        opt_text(r) == opt_text(*o),
{
    match o {
        Some(s) => Some(s.clone()),
        None => None,
    }
}

impl View for BankTransaction {
    type V = TxView;

    open spec fn view(&self) -> TxView {
        TxView {
            id: self.id@,
            status: self.status,
            amount_cents: self.amount_cents,
            card_number: self.card_number@,
            created_at: self.created_at,
            capture_id: opt_text(self.capture_id),
            refund_id: opt_text(self.refund_id),
        }
    }
}

impl BankTransaction {
    /// A copy of the transaction.
    pub fn copy(&self) -> (r: BankTransaction)
        ensures
            r@ == self@,
    {
        BankTransaction {
            id: self.id.clone(),
            status: self.status,
            amount_cents: self.amount_cents,
            card_number: self.card_number.clone(),
            created_at: self.created_at,
            capture_id: copy_opt_text(&self.capture_id),
            refund_id: copy_opt_text(&self.refund_id),
        }
    }
}

/// The answer to a successful operation.
#[derive(Debug)]
pub enum BankSuccess {
    Authorized(AuthorizeResponse),
    Captured(CaptureResponse),
    Voided(VoidResponse),
    Refunded(RefundResponse),
}

/// A successful answer with its texts taken as character sequences.
pub enum SuccessView {
    Authorized(ReceiptView),
    Captured(ReceiptView),
    Voided(ReceiptView),
    Refunded(ReceiptView),
}

impl View for BankSuccess {
    type V = SuccessView;

    open spec fn view(&self) -> SuccessView {
        match self {
            BankSuccess::Authorized(r) => SuccessView::Authorized(r@),
            BankSuccess::Captured(r) => SuccessView::Captured(r@),
            BankSuccess::Voided(r) => SuccessView::Voided(r@),
            BankSuccess::Refunded(r) => SuccessView::Refunded(r@),
        }
    }
}

impl BankSuccess {
    /// A copy of the answer.
    pub fn copy(&self) -> (r: BankSuccess)
        ensures
            r@ == self@,
    {
        match self {
            BankSuccess::Authorized(r) => BankSuccess::Authorized(
                AuthorizeResponse { auth_id: r.auth_id.clone(), status: r.status.clone() },
            ),
            BankSuccess::Captured(r) => BankSuccess::Captured(
                CaptureResponse { capture_id: r.capture_id.clone(), status: r.status.clone() },
            ),
            BankSuccess::Voided(r) => BankSuccess::Voided(
                VoidResponse { void_id: r.void_id.clone(), status: r.status.clone() },
            ),
            BankSuccess::Refunded(r) => BankSuccess::Refunded(
                RefundResponse { refund_id: r.refund_id.clone(), status: r.status.clone() },
            ),
        }
    }
}

/// The answer given to a request under an idempotency key at an endpoint,
/// with the fingerprint of that request.
#[derive(Debug)]
pub struct IdempotencyRecord {
    pub path: String,
    pub key: String,
    pub request_hash: String,
    pub response: BankSuccess,
}

/// A stored answer: the request's fingerprint and the answer given.
pub struct RecordView {
    pub request_hash: Seq<char>,
    pub response: SuccessView,
}

/// The ledger seen as two maps: transactions by id, and stored answers by
/// endpoint path and idempotency key.
pub struct BankStateView {
    pub transactions: Map<Seq<char>, TxView>,
    pub records: Map<(Seq<char>, Seq<char>), RecordView>,
}

/// The mock bank's ledger. Its tables are vectors searched by key, with a
/// ghost map beside each: std's `HashMap` keyed by `String` carries no
/// specification that Verus can use.
pub struct BankState {
    transactions: Vec<BankTransaction>,
    idempotency: Vec<IdempotencyRecord>,
    tx_map: Ghost<Map<Seq<char>, TxView>>,
    record_map: Ghost<Map<(Seq<char>, Seq<char>), RecordView>>,
}

impl View for BankState {
    type V = BankStateView;

    closed spec fn view(&self) -> BankStateView {
        BankStateView { transactions: self.tx_map@, records: self.record_map@ }
    }
}

/// The key under which a record is stored.
pub open spec fn record_key(r: IdempotencyRecord) -> (Seq<char>, Seq<char>) {
    (r.path@, r.key@)
}

/// The stored answer of a record.
pub open spec fn record_view(r: IdempotencyRecord) -> RecordView {
    RecordView { request_hash: r.request_hash@, response: r.response@ }
}

impl BankState {
    /// The ledger's lists agree with its maps: ids (and record keys) occur
    /// once, and each map holds exactly the entries of its list.
    pub closed spec fn wf(&self) -> bool {
        &&& forall|i: int, j: int|
            0 <= i < j < self.transactions@.len() ==> #[trigger] self.transactions@[i].id@
                != #[trigger] self.transactions@[j].id@
        &&& forall|i: int|
            0 <= i < self.transactions@.len() ==> self.tx_map@.contains_key(
                #[trigger] self.transactions@[i].id@,
            ) && self.tx_map@[self.transactions@[i].id@] == self.transactions@[i]@
        &&& forall|id: Seq<char>|
            #[trigger] self.tx_map@.contains_key(id) ==> exists|i: int|
                0 <= i < self.transactions@.len() && #[trigger] self.transactions@[i].id@ == id
        &&& forall|i: int, j: int|
            0 <= i < j < self.idempotency@.len() ==> record_key(
                #[trigger] self.idempotency@[i],
            ) != record_key(#[trigger] self.idempotency@[j])
        &&& forall|i: int|
            0 <= i < self.idempotency@.len() ==> self.record_map@.contains_key(
                record_key(#[trigger] self.idempotency@[i]),
            ) && self.record_map@[record_key(self.idempotency@[i])] == record_view(
                self.idempotency@[i],
            )
        &&& forall|k: (Seq<char>, Seq<char>)|
            #[trigger] self.record_map@.contains_key(k) ==> exists|i: int|
                0 <= i < self.idempotency@.len() && record_key(#[trigger] self.idempotency@[i])
                    == k
    }

    /// An empty ledger.
    pub fn new() -> (s: BankState)
        ensures
            s.wf(),
            s@.transactions == Map::<Seq<char>, TxView>::empty(),
            s@.records == Map::<(Seq<char>, Seq<char>), RecordView>::empty(),
    {
        BankState {
            transactions: Vec::new(),
            idempotency: Vec::new(),
            tx_map: Ghost(Map::empty()),
            record_map: Ghost(Map::empty()),
        }
    }

    /// The position of the transaction with the given id, if there is one.
    fn find_tx(&self, id: &String) -> (r: Option<usize>)
        requires
            self.wf(),
        ensures
            match r {
                Some(i) => i < self.transactions@.len() && self.transactions@[i as int].id@ == id@
                    && self@.transactions.contains_key(id@) && self@.transactions[id@]
                    == self.transactions@[i as int]@,
                None => !self@.transactions.contains_key(id@),
            },
    {
        let mut i: usize = 0;
        while i < self.transactions.len()
            invariant
                self.wf(),
                i <= self.transactions@.len(),
                forall|j: int| 0 <= j < i ==> #[trigger] self.transactions@[j].id@ != id@,
            decreases self.transactions@.len() - i,
        {
            if self.transactions[i].id == *id {
                return Some(i);
            }
            i = i + 1;
        }
        None
    }

    /// A copy of the transaction with the given id, if there is one.
    pub fn transaction(&self, id: &String) -> (r: Option<BankTransaction>)
        requires
            self.wf(),
        ensures
            match r {
                Some(t) => self@.transactions.contains_key(id@) && self@.transactions[id@] == t@
                    && t.id@ == id@,
                None => !self@.transactions.contains_key(id@),
            },
    {
        match self.find_tx(id) {
            Some(i) => Some(self.transactions[i].copy()),
            None => None,
        }
    }

    /// A copy of some transaction whose capture id is `capture_id`, if any.
    pub fn transaction_by_capture(&self, capture_id: &String) -> (r: Option<BankTransaction>)
        requires
            self.wf(),
        ensures
            match r {
                Some(t) => self@.transactions.contains_key(t.id@) && self@.transactions[t.id@]
                    == t@ && t@.capture_id == Some(capture_id@),
                None => forall|id: Seq<char>|
                    #[trigger] self@.transactions.contains_key(id)
                        ==> self@.transactions[id].capture_id != Some(capture_id@),
            },
    {
        let mut i: usize = 0;
        while i < self.transactions.len()
            invariant
                self.wf(),
                i <= self.transactions@.len(),
                forall|j: int|
                    0 <= j < i ==> (#[trigger] self.transactions@[j])@.capture_id != Some(
                        capture_id@,
                    ),
            decreases self.transactions@.len() - i,
        {
            let matches = match &self.transactions[i].capture_id {
                Some(c) => *c == *capture_id,
                None => false,
            };
            if matches {
                return Some(self.transactions[i].copy());
            }
            i = i + 1;
        }
        proof {
            assert forall|id: Seq<char>| #[trigger]
                self@.transactions.contains_key(id) implies self@.transactions[id].capture_id
                != Some(capture_id@) by {
                let j = choose|j: int|
                    0 <= j < self.transactions@.len() && #[trigger] self.transactions@[j].id@
                        == id;
                assert(self.tx_map@[self.transactions@[j].id@] == self.transactions@[j]@);
            }
        }
        None
    }

    /// Stores `tx` under its id, replacing any transaction with that id.
    pub fn put_transaction(&mut self, tx: BankTransaction)
        requires
            old(self).wf(),
        ensures
            final(self).wf(),
            final(self)@.transactions == old(self)@.transactions.insert(tx.id@, tx@),
            final(self)@.records == old(self)@.records,
    {
        let ghost id = tx.id@;
        let ghost v = tx@;
        match self.find_tx(&tx.id) {
            Some(i) => {
                self.transactions.set(i, tx);
                self.tx_map = Ghost(self.tx_map@.insert(id, v));
                proof {
                    assert forall|k: Seq<char>| #[trigger]
                        self.tx_map@.contains_key(k) implies exists|j: int|
                        0 <= j < self.transactions@.len() && #[trigger] self.transactions@[j].id@
                            == k by {
                        if k == id {
                            assert(self.transactions@[i as int].id@ == k);
                        } else {
                            assert(old(self).tx_map@.contains_key(k));
                            let j = choose|j: int|
                                0 <= j < old(self).transactions@.len()
                                    && #[trigger] old(self).transactions@[j].id@ == k;
                            assert(self.transactions@[j].id@ == k);
                        }
                    }
                }
            },
            None => {
                let ghost n = self.transactions@.len();
                self.transactions.push(tx);
                self.tx_map = Ghost(self.tx_map@.insert(id, v));
                proof {
                    assert forall|a: int, b: int|
                        0 <= a < b < self.transactions@.len() implies #[trigger] self.transactions@[a].id@
                        != #[trigger] self.transactions@[b].id@ by {
                        if b == n {
                            assert(old(self).tx_map@.contains_key(old(self).transactions@[a].id@));
                        }
                    }
                    assert forall|k: Seq<char>| #[trigger]
                        self.tx_map@.contains_key(k) implies exists|j: int|
                        0 <= j < self.transactions@.len() && #[trigger] self.transactions@[j].id@
                            == k by {
                        if k == id {
                            assert(self.transactions@[n as int].id@ == k);
                        } else {
                            assert(old(self).tx_map@.contains_key(k));
                            let j = choose|j: int|
                                0 <= j < old(self).transactions@.len()
                                    && #[trigger] old(self).transactions@[j].id@ == k;
                            assert(self.transactions@[j].id@ == k);
                        }
                    }
                }
            },
        }
    }

    /// The position of the record stored under `path` and `key`, if any.
    fn find_record(&self, path: &String, key: &String) -> (r: Option<usize>)
        requires
            self.wf(),
        ensures
            match r {
                Some(i) => i < self.idempotency@.len() && record_key(self.idempotency@[i as int])
                    == (path@, key@) && self@.records.contains_key((path@, key@))
                    && self@.records[(path@, key@)] == record_view(self.idempotency@[i as int]),
                None => !self@.records.contains_key((path@, key@)),
            },
    {
        let mut i: usize = 0;
        while i < self.idempotency.len()
            invariant
                self.wf(),
                i <= self.idempotency@.len(),
                forall|j: int|
                    0 <= j < i ==> record_key(#[trigger] self.idempotency@[j]) != (path@, key@),
            decreases self.idempotency@.len() - i,
        {
            if self.idempotency[i].path == *path && self.idempotency[i].key == *key {
                return Some(i);
            }
            i = i + 1;
        }
        None
    }

    /// The fingerprint and a copy of the answer stored under `path` and
    /// `key`, if any.
    pub fn record(&self, path: &String, key: &String) -> (r: Option<(String, BankSuccess)>)
        requires
            self.wf(),
        ensures
            match r {
                Some((h, resp)) => self@.records.contains_key((path@, key@)) && self@.records[(
                    path@,
                    key@,
                )] == (RecordView { request_hash: h@, response: resp@ }),
                None => !self@.records.contains_key((path@, key@)),
            },
    {
        match self.find_record(path, key) {
            Some(i) => {
                let rec = &self.idempotency[i];
                Some((rec.request_hash.clone(), rec.response.copy()))
            },
            None => None,
        }
    }

    /// Stores an answer under its path and key, replacing any stored there.
    pub fn put_record(&mut self, rec: IdempotencyRecord)
        requires
            old(self).wf(),
        ensures
            final(self).wf(),
            final(self)@.records == old(self)@.records.insert(record_key(rec), record_view(rec)),
            final(self)@.transactions == old(self)@.transactions,
    {
        let ghost k = record_key(rec);
        let ghost v = record_view(rec);
        match self.find_record(&rec.path, &rec.key) {
            Some(i) => {
                self.idempotency.set(i, rec);
                self.record_map = Ghost(self.record_map@.insert(k, v));
                proof {
                    assert forall|q: (Seq<char>, Seq<char>)| #[trigger]
                        self.record_map@.contains_key(q) implies exists|j: int|
                        0 <= j < self.idempotency@.len() && record_key(
                            #[trigger] self.idempotency@[j],
                        ) == q by {
                        if q == k {
                            assert(record_key(self.idempotency@[i as int]) == q);
                        } else {
                            assert(old(self).record_map@.contains_key(q));
                            let j = choose|j: int|
                                0 <= j < old(self).idempotency@.len() && record_key(
                                    #[trigger] old(self).idempotency@[j],
                                ) == q;
                            assert(record_key(self.idempotency@[j]) == q);
                        }
                    }
                }
            },
            None => {
                let ghost n = self.idempotency@.len();
                self.idempotency.push(rec);
                self.record_map = Ghost(self.record_map@.insert(k, v));
                proof {
                    assert forall|a: int, b: int|
                        0 <= a < b < self.idempotency@.len() implies record_key(
                        #[trigger] self.idempotency@[a],
                    ) != record_key(#[trigger] self.idempotency@[b]) by {
                        if b == n {
                            assert(old(self).record_map@.contains_key(
                                record_key(old(self).idempotency@[a]),
                            ));
                        }
                    }
                    assert forall|q: (Seq<char>, Seq<char>)| #[trigger]
                        self.record_map@.contains_key(q) implies exists|j: int|
                        0 <= j < self.idempotency@.len() && record_key(
                            #[trigger] self.idempotency@[j],
                        ) == q by {
                        if q == k {
                            assert(record_key(self.idempotency@[n as int]) == q);
                        } else {
                            assert(old(self).record_map@.contains_key(q));
                            let j = choose|j: int|
                                0 <= j < old(self).idempotency@.len() && record_key(
                                    #[trigger] old(self).idempotency@[j],
                                ) == q;
                            assert(record_key(self.idempotency@[j]) == q);
                        }
                    }
                }
            },
        }
    }
}

/// A fresh, empty ledger.
pub fn new_state() -> (s: BankState)
    ensures
        s.wf(),
        s@.transactions == Map::<Seq<char>, TxView>::empty(),
        s@.records == Map::<(Seq<char>, Seq<char>), RecordView>::empty(),
{
    BankState::new()
}

} // verus!
