//! The Plutus ledger API types that validators receive, and how each is
//! written as `Data`.
pub mod v1;
pub mod v3;
