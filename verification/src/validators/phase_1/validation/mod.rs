//! The single checks.

pub mod registration;
pub mod registration_laws;
pub mod requests;
pub mod verdicts;
