//! Checks that need no script to be run.

pub mod errors;
pub mod validation;
