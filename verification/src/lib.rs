//! Treasury agent core: authorization gating, transfer validation, balance
//! sufficiency checks, sequential single and batch transfer execution against
//! an external ledger, and an append-only history of transfer attempts.

pub mod auth;
pub mod errors;
pub mod executor;
pub mod history;
pub mod laws;
pub mod principal;
pub mod requests;
pub mod text;
pub mod validate;
