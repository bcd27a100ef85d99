//! Verified core of a payment gateway and of the mock bank it talks to:
//! the payment state machine, idempotent request handling, bank reply
//! classification with bounded retries, and the mock bank's ledger rules.
pub mod bank;
pub mod common;
pub mod errors;
pub mod fingerprint;
pub mod idempotency;
pub mod mock_bank;
pub mod payment;
pub mod recovery;
pub mod repository;
pub mod routes;
pub mod text;
