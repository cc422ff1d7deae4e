//! Capability-scoped ledger core: purse balances, a mint that creates and
//! moves them, and an access-rights gate for the host boundary.

pub mod balance;
pub mod host;
pub mod mint;
pub mod rights;
