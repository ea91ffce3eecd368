//! Checks that run the scripts of a transaction.

pub mod errors;
pub mod eval_redeemer;
pub mod evaluable;
pub mod evaluation;
pub mod laws;
pub mod transaction;
