//! Modules loaded into a process.

use vstd::prelude::*;

use crate::architecture::ArchitectureIdent;
use crate::types::Address;

verus! {

/// A loaded module.
#[derive(Clone, Debug)]
pub struct ModuleInfo {
    /// Address of the module's structure (on Windows its `_LDR_DATA_TABLE_ENTRY`).
    pub address: Address,
    /// The process the module belongs to.
    pub parent_process: Address,
    /// Where the module's image is mapped, and its size.
    pub base: Address,
    pub size: u64,
    pub name: String,
    pub path: String,
    pub arch: ArchitectureIdent,
}

} // verus!
