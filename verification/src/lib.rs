//! Core of a batch disbursement tool for a ledger of consumable value records:
//! given a funding identity, a fixed amount and fee, and an ordered list of
//! recipients, it locates two unspent records per recipient (one covering the
//! fee, one the amount), submits a private transfer, retries on failure up to
//! a bound, and paces successful submissions with a fixed delay.
//!
//! The ledger itself (cryptography, signing, network calls) is an external
//! collaborator; this crate holds the record-selection and retry-orchestration
//! logic, with the decisions modeled as a step-wise state machine that a thin
//! driver executes.

pub mod dispense;
pub mod errors;
pub mod identity;
pub mod locate;
pub mod range;
