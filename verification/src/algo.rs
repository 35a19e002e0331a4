//! In-memory algorithms: hashing and the specialized searches used for
//! B+Tree operations.

pub mod fnv1a;
pub mod search;
