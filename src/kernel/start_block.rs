//! Where translation of the kernel starts: its architecture, its directory
//! table base and a hint where its image lies.

pub mod aarch64;
pub mod x64;

use vstd::prelude::*;

use crate::architecture::ArchitectureIdent;
use crate::types::Address;

verus! {

#[derive(Clone, Copy, Debug, PartialEq, Eq, Structural)]
pub struct StartBlock {
    pub arch: ArchitectureIdent,
    pub kernel_hint: Address,
    pub dtb: Address,
}

} // verus!
