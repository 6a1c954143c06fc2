//! x86-64: four table steps of 512 entries and 4 KiB pages, with 2 MiB and
//! 1 GiB large pages.

use vstd::prelude::*;

use crate::error::ErrorKind;
use crate::mmu_spec::{suffix_sum, ArchMMUSpec};
use crate::translate::{read_pte_spec, translate_spec, walk_spec, PhysicalAddress};
use crate::types::{bit_mask_spec, bit_set, Address, Endianess};

verus! {

/// The x86-64 layout.
pub open spec fn is_x64_layout(m: &ArchMMUSpec) -> bool {
    &&& m.splits() == seq![9u8, 9u8, 9u8, 9u8, 12u8]
    &&& m.valid_final_page_steps@ == seq![1usize, 2usize, 3usize]
    &&& m.address_space_bits == 52
    &&& m.pte_size == 8
    &&& m.present_bit == 0
    &&& m.writeable_bit == 1
    &&& m.nx_bit == 63
    &&& m.large_page_bit == 7
    &&& !m.large_page_when_clear
}

pub fn get_mmu_spec() -> (r: ArchMMUSpec)
    ensures
        is_x64_layout(&r),
        r.wf(),
{
    let r = ArchMMUSpec {
        virtual_address_splits: vec![9, 9, 9, 9, 12],
        valid_final_page_steps: vec![1, 2, 3],
        address_space_bits: 52,
        pte_size: 8,
        present_bit: 0,
        writeable_bit: 1,
        nx_bit: 63,
        large_page_bit: 7,
        large_page_when_clear: false,
    };
    proof {
        assert(r.splits() =~= seq![9u8, 9u8, 9u8, 9u8, 12u8]);
        assert(r.valid_final_page_steps@ =~= seq![1usize, 2usize, 3usize]);
        reveal_with_fuel(suffix_sum, 6);
    }
    r
}

/// Over the x64 layout, with the top table at 0x1a000 whose entry for
/// 0xFFFFF80000000000 (index 0x1f0) leads to a table at 0x1b000, whose first
/// entry leads to a table at 0x1c000, whose first entry is a present large
/// page at 0x200000, that address translates to 0x200000 in a 2 MiB page.
pub proof fn lemma_large_page_translation(m: &ArchMMUSpec, mem: Seq<u8>, e: Endianess)
    requires
        is_x64_layout(m),
        m.wf(),
        read_pte_spec(mem, m, e, 0x1a000int + 0x1f0int * 8) == Some(0x1b003u64),
        read_pte_spec(mem, m, e, 0x1b000int) == Some(0x1c003u64),
        read_pte_spec(mem, m, e, 0x1c000int) == Some(0x20_0083u64),
    ensures
        translate_spec(mem, m, e, 0x1a000, 0xFFFF_F800_0000_0000) == Ok::<PhysicalAddress, ErrorKind>(
            PhysicalAddress { address: Address { addr: 0x20_0000 }, page_size: 0x20_0000 },
        ),
{
    let v: u64 = 0xFFFF_F800_0000_0000;
    reveal_with_fuel(suffix_sum, 6);
    reveal_with_fuel(walk_spec, 4);
    assert(m.valid_final_page_steps@[1] == 2usize);
    assert(m.valid_final_page_steps@.contains(2usize));
    assert({
        &&& 0x1a000u64 & bit_mask_spec(12, 51) == 0x1a000u64
        &&& (v >> 39u64) & (((1u64 << 9u64) - 1) as u64) == 0x1f0u64
        &&& (v >> 30u64) & (((1u64 << 9u64) - 1) as u64) == 0u64
        &&& (v >> 21u64) & (((1u64 << 9u64) - 1) as u64) == 0u64
        &&& bit_set(0x1b003u64, 0) && !bit_set(0x1b003u64, 7)
        &&& bit_set(0x1c003u64, 0) && !bit_set(0x1c003u64, 7)
        &&& bit_set(0x20_0083u64, 0) && bit_set(0x20_0083u64, 7)
        &&& 0x1b003u64 & bit_mask_spec(12, 51) == 0x1b000u64
        &&& 0x1c003u64 & bit_mask_spec(12, 51) == 0x1c000u64
        &&& 1u64 << 21u64 == 0x20_0000u64
        &&& 0x20_0083u64 & bit_mask_spec(21, 51) == 0x20_0000u64
        &&& (0x20_0000u64 | (v & ((0x20_0000u64 - 1) as u64))) == 0x20_0000u64
    }) by (bit_vector)
        requires
            v == 0xFFFF_F800_0000_0000u64,
    ;
}

} // verus!
