//! Decisions of a bank-account ledger whose accounts live in a transactional store.
//!
//! The store itself is reached by the program around this library. The library
//! holds every rule: which payloads are acceptable, when a movement keeps an
//! account within its credit limit, which request goes to the store next, and
//! what is answered to the caller.

pub mod account;
pub mod error;
pub mod laws;
pub mod ledger;
pub mod limit;
pub mod payload;
pub mod poster;
pub mod series;
pub mod statement;
pub mod store;
