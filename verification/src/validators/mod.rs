//! Checks that a transaction passes before it is accepted by the ledger.

pub mod certificate;
pub mod common;
pub mod helpers;
pub mod input_contexts;
pub mod phase_1;
pub mod phase_2;
pub mod unique;
pub mod validation_result;
