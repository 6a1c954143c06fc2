//! AArch64 with a 4 KiB granule: four table steps of 512 entries, with
//! 2 MiB and 1 GiB blocks.

use vstd::prelude::*;

use crate::mmu_spec::{suffix_sum, ArchMMUSpec};

verus! {

/// The AArch64 layout. Bit 0 marks a valid descriptor; above the last step,
/// bit 1 set marks a next-level table and bit 1 clear a block; bit 54 is the
/// execute-never bit of unprivileged code, bit 7 the read-only bit.
pub open spec fn is_aarch64_layout(m: &ArchMMUSpec) -> bool {
    &&& m.splits() == seq![9u8, 9u8, 9u8, 9u8, 12u8]
    &&& m.valid_final_page_steps@ == seq![1usize, 2usize, 3usize]
    &&& m.address_space_bits == 48
    &&& m.pte_size == 8
    &&& m.present_bit == 0
    &&& m.writeable_bit == 7
    &&& m.nx_bit == 54
    &&& m.large_page_bit == 1
    &&& m.large_page_when_clear
}

pub fn get_mmu_spec() -> (r: ArchMMUSpec)
    ensures
        is_aarch64_layout(&r),
        r.wf(),
{
    let r = ArchMMUSpec {
        virtual_address_splits: vec![9, 9, 9, 9, 12],
        valid_final_page_steps: vec![1, 2, 3],
        address_space_bits: 48,
        pte_size: 8,
        present_bit: 0,
        writeable_bit: 7,
        nx_bit: 54,
        large_page_bit: 1,
        large_page_when_clear: true,
    };
    proof {
        assert(r.splits() =~= seq![9u8, 9u8, 9u8, 9u8, 12u8]);
        assert(r.valid_final_page_steps@ =~= seq![1usize, 2usize, 3usize]);
        reveal_with_fuel(suffix_sum, 6);
    }
    r
}

} // verus!
