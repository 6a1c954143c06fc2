//! Architectures of a target and their layouts.

pub mod aarch64;
pub mod x64;
pub mod x86;
pub mod x86_pae;

use vstd::prelude::*;

use crate::mmu_spec::ArchMMUSpec;
use crate::types::Endianess;

verus! {

/// An architecture: `X86(bits, flag)` or `AArch64`.
///
/// For 32-bit x86 the flag marks physical address extension, which is the
/// layout a 64-bit Windows kernel gives to its emulated 32-bit (WOW64)
/// processes; `X86(32, true)` therefore also names a WOW64 process.
#[derive(Clone, Copy, Debug, PartialEq, Eq, Structural)]
pub enum ArchitectureIdent {
    X86(u8, bool),
    AArch64,
}

/// Whether `mmu` is the layout of `arch`.
pub open spec fn arch_layout(arch: ArchitectureIdent, mmu: &ArchMMUSpec) -> bool {
    match arch {
        ArchitectureIdent::X86(64, _) => x64::is_x64_layout(mmu),
        ArchitectureIdent::X86(32, true) => x86_pae::is_x86_pae_layout(mmu),
        ArchitectureIdent::X86(32, false) => x86::is_x86_layout(mmu),
        ArchitectureIdent::AArch64 => aarch64::is_aarch64_layout(mmu),
        _ => false,
    }
}

/// An architecture has one layout: two layouts of it agree field for field.
pub proof fn lemma_arch_layout_unique(arch: ArchitectureIdent, a: &ArchMMUSpec, b: &ArchMMUSpec)
    requires
        arch_layout(arch, a),
        arch_layout(arch, b),
    ensures
        a.same_layout(b),
{
}

impl ArchitectureIdent {
    pub open spec fn bits_spec(self) -> u8 {
        match self {
            ArchitectureIdent::X86(b, _) => b,
            ArchitectureIdent::AArch64 => 64,
        }
    }

    /// Whether this names an architecture: x86 of 32 or 64 bits, or AArch64.
    /// Each has a page-table layout that the walker knows.
    pub open spec fn has_layout(self) -> bool {
        match self {
            ArchitectureIdent::X86(b, _) => b == 32 || b == 64,
            ArchitectureIdent::AArch64 => true,
        }
    }

    /// Whether this names an architecture with a layout.
    pub fn is_valid(self) -> (r: bool)
        ensures
            r == self.has_layout(),
    {
        match self {
            ArchitectureIdent::X86(b, _) => b == 32 || b == 64,
            ArchitectureIdent::AArch64 => true,
        }
    }

    /// Width of a pointer in bits.
    pub fn bits(self) -> (r: u8)
        ensures
            r == self.bits_spec(),
    {
        match self {
            ArchitectureIdent::X86(b, _) => b,
            ArchitectureIdent::AArch64 => 64,
        }
    }

    /// Width of a pointer in bytes.
    pub fn size_addr(self) -> (r: usize)
        ensures
            r == self.bits_spec() / 8,
    {
        (self.bits() / 8) as usize
    }

    pub fn endianess(self) -> (r: Endianess)
        ensures
            r == Endianess::LittleEndian,
    {
        Endianess::LittleEndian
    }

    /// Size of a regular page.
    pub fn page_size(self) -> (r: u64)
        ensures
            r == 4096,
    {
        4096
    }

    /// The page-table layout of the architecture, where the walker knows it.
    pub fn mmu_spec(self) -> (r: Option<ArchMMUSpec>)
        ensures
            r is Some <==> self.has_layout(),
            r is Some ==> r->Some_0.wf() && arch_layout(self, &r->Some_0),
            self matches ArchitectureIdent::X86(64, _) ==> r is Some && x64::is_x64_layout(
                &r->Some_0,
            ),
            self == ArchitectureIdent::X86(32, true) ==> r is Some && x86_pae::is_x86_pae_layout(
                &r->Some_0,
            ),
            self == ArchitectureIdent::X86(32, false) ==> r is Some && x86::is_x86_layout(
                &r->Some_0,
            ),
    {
        match self {
            ArchitectureIdent::X86(64, _) => Some(x64::get_mmu_spec()),
            ArchitectureIdent::X86(32, true) => Some(x86_pae::get_mmu_spec()),
            ArchitectureIdent::X86(32, false) => Some(x86::get_mmu_spec()),
            ArchitectureIdent::AArch64 => Some(aarch64::get_mmu_spec()),
            _ => None,
        }
    }
}

} // verus!
