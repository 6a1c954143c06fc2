//! 32-bit x86 without address extension: two table steps of 1024 entries.

use vstd::prelude::*;

use crate::mmu_spec::{suffix_sum, ArchMMUSpec};

verus! {

/// The 32-bit x86 layout.
pub open spec fn is_x86_layout(m: &ArchMMUSpec) -> bool {
    &&& m.splits() == seq![10u8, 10u8, 12u8]
    &&& m.valid_final_page_steps@ == seq![0usize, 1usize]
    &&& m.address_space_bits == 32
    &&& m.pte_size == 4
    &&& m.present_bit == 0
    &&& m.writeable_bit == 1
    &&& m.nx_bit == 31
    &&& m.large_page_bit == 7
    &&& !m.large_page_when_clear
}

pub fn get_mmu_spec() -> (r: ArchMMUSpec)
    ensures
        is_x86_layout(&r),
        r.wf(),
{
    let r = ArchMMUSpec {
        virtual_address_splits: vec![10, 10, 12],
        valid_final_page_steps: vec![0, 1],
        address_space_bits: 32,
        pte_size: 4,
        present_bit: 0,
        writeable_bit: 1,
        nx_bit: 31,
        large_page_bit: 7,
        large_page_when_clear: false,
    };
    proof {
        assert(r.splits() =~= seq![10u8, 10u8, 12u8]);
        assert(r.valid_final_page_steps@ =~= seq![0usize, 1usize]);
        reveal_with_fuel(suffix_sum, 4);
    }
    r
}

} // verus!
