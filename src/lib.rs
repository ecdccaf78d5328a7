//! A device identity ledger and a gated data-ingestion pipeline.
//!
//! Devices register a unique identity under an owner address, owners grant
//! time-bound read access to consumers, and a designated relay submits data
//! that is accepted only once the ledger confirms the originating device.
pub mod access;
pub mod admin;
pub mod error;
pub mod laws;
pub mod payload;
pub mod pipeline;
pub mod primitives;
pub mod registry;
