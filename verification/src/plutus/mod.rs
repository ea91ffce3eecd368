//! Runs all scripts of a transaction.

pub mod data_mapper;
pub mod execute_tx_scripts;
pub mod laws;
