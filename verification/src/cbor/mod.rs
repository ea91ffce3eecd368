//! The CBOR viewer: tokens, the JSON tree that is built of them, and what holds
//! of every such tree.

pub mod cbor_decoder;
pub mod laws;
pub mod token;
pub mod value_laws;
