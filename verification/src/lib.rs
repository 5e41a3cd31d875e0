//! A minimal persistence core for player records.
//!
//! The crate defines the `Player` entity, the `PlayerStore` capability that
//! any persistence backend must provide, a `MemoryStore` backend that keeps
//! its rows in memory, and `get_or_insert_player`, the composed
//! read-then-write-if-absent operation that callers use to obtain a stored
//! record or persist a fresh one.

pub mod error;
pub mod memory;
pub mod player;
pub mod store;
