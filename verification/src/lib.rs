//! A small ledger engine: it replays per-client operations (deposit,
//! withdrawal, dispute, resolve, chargeback) against in-memory account
//! state, enforcing overdraft, idempotency and dispute-lifecycle rules
//! with overflow-safe exact-decimal arithmetic.

pub mod amount;
pub mod bank;
pub mod error;
pub mod laws;
pub mod model;
pub mod record;
