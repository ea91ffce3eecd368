//! Inspection and validation of Cardano transactions: a CBOR viewer that keeps
//! byte positions, the registration rules of phase one, and the script
//! evaluation of phase two.

pub mod cbor;
pub mod common;
pub mod js_error;
pub mod plutus;
pub mod text;
pub mod validators;
pub mod value;
pub mod views;
