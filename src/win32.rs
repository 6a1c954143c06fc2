//! The Windows view of a target: kernel structures, processes and modules.

pub mod builder;
pub mod kernel;
pub mod module;
pub mod offsets;
pub mod pe;
pub mod process;
pub mod process_list;
pub mod process_name;
pub mod text;
