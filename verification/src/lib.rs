//! Storage-access foundation for an embedded database engine: page-aligned
//! file regions, shared file identities keyed by inode, advisory byte-range
//! locks, and memory-mapped segments.

pub mod algo;
pub mod errors;
pub mod fs_lock;
pub mod luxor_file;
pub mod mmap;
pub mod os;
pub mod serial;
