//! Locating the kernel in cold physical memory.

pub mod pe_header;
pub mod start_block;
