//! Text-embedding and reranking models held in single-assignment slots.
//!
//! `catalog` maps exact model identifiers to fastembed's model variants;
//! `slot` is the write-once cell that holds a resident model; `service`
//! loads models into a `Models` context and runs them; `engine` holds the
//! calls into fastembed; `laws` states what holds across calls.

pub mod catalog;
pub mod engine;
pub mod laws;
pub mod messages;
pub mod service;
pub mod slot;
