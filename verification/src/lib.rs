//! Verified core of blight-rs: size units, memory chunk descriptors, and the
//! decisions that the mimalloc-backed heaps and allocators take around each
//! call into mimalloc.

pub mod units;
pub mod api;
pub mod mimalloc;
pub mod heap;
pub mod gpa;
pub mod arena;
pub mod osarena;
