//! Transaction builders and result parsing for a DID ledger registry.
//!
//! The crate models the write and read operations of an on-chain DID
//! registry: building unsigned transactions that create, update,
//! deactivate or resolve a DID document, and decoding the raw bytes a
//! resolve call returns back into a structured document.  Every entry
//! point carries a contract that pins the produced transaction or the
//! parse outcome down to the byte level.

pub mod client;
pub mod codec;
pub mod did_registry;
pub mod document;
pub mod errors;
pub mod identifiers;
pub mod transaction;
