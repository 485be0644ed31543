//! In-memory collections that count the operations made through them.
//!
//! `CountedVec` wraps a `Vec` and `CountedHashMap` wraps a `HashMap`. Each
//! keeps an `OperationStats` record of how many insert, get and delete calls
//! it has served, whether or not a call found what it looked for.
pub mod counted_hash_map;
pub mod counted_vec;
pub mod laws;
pub mod stats;

pub use counted_hash_map::CountedHashMap;
pub use counted_vec::CountedVec;
pub use stats::OperationStats;
