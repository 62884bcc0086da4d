//! Series completion tracking and canonical repacking of received DICOM files.
//!
//! The library holds the decisions of the two tools: the per-series counter
//! step against the key/value store, the dispatch policy, the argument
//! rewriting between the tools, and the derivation of destination paths.

pub mod decimal;
pub mod layout;
pub mod tracker;
pub mod args;
