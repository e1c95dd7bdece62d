//! Pruning-point advancement and DAG pruning for a GHOSTDAG block store.
//!
//! The library holds the decisions of the pruning processor as verified
//! functions over plain values: when the pruning point moves, which blocks are
//! kept and in what form, how GHOSTDAG records of kept blocks are compacted,
//! which body tips survive, and what the bottom-up traversal does with each
//! block it visits, how the pruning-point UTXO set rolls forward, and how
//! rebuilt proofs and trusted data are compared with their references.

pub mod model;
pub mod pruning_info;
pub mod keep_sets;
pub mod ghostdag;
pub mod tips;
pub mod traversal;
pub mod sanity;
pub mod processor;
pub mod utxo;
