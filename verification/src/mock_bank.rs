//! The mock bank: its test cards, its ledger of transactions with the rules
//! each operation enforces, idempotent replay of operations, and the chaos
//! it can inject into its answers.
pub mod cards;
pub mod models;
pub mod state;
pub mod routes;
pub mod laws;
pub mod chaos;
