//! Address types, page-table entries and the frame allocator.
pub mod address;
pub mod frame_allocator;
pub mod memory;
pub mod page_table;
