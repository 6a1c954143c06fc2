//! The operating-system view of a target: processes and their state.

pub mod instance;
pub mod module;
pub mod process;
