//! Client-side submission of ledger transactions: building and encoding a
//! transaction, and the subscribe-before-broadcast protocol that observes its
//! confirmation.
pub mod coordinator;
pub mod encoding;
pub mod tx;
