//! Validation and state-transition core for fractionalizing a custodial vault.
//!
//! A vault holds one or more deposited assets, each in its own safety-deposit
//! slot. A fraction manager record is bound to one vault and validates each
//! slot exactly once, applying per-transfer-mode supply rules, until every
//! slot is accounted for and the manager becomes usable.

pub mod address;
pub mod error;
pub mod records;
pub mod checks;
pub mod supply;
pub mod validate;
pub mod engine;
pub mod laws;
