//! A tamper-evident metadata registry.
//!
//! Callers submit a document identifier together with an opaque metadata
//! payload (optionally annotated with similarity-detection matches). The
//! registry assigns a monotonically increasing record identifier, computes a
//! Keccak-256 content hash of the payload, stamps the submitting identity and
//! the current time, and stores the record immutably. Records are retrievable
//! by identifier or by document identifier.

pub mod hash;
pub mod record;
pub mod metadata_store;
pub mod story_store;
pub mod laws;
