//! Memory-virtualization and task-scheduling core of a small SV39 kernel.
//!
//! The crate holds the address algebra, the page-table-entry encoding, the
//! physical-frame allocator and the cooperative round-robin scheduler.  All of
//! it is plain data and decisions: the caller performs the context switch, the
//! power-off and every raw memory access.
use vstd::prelude::*;

pub mod config;
pub mod loader;
pub mod mm;
pub mod task;
