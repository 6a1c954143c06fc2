//! x86 with physical address extension: three table steps and 4 KiB pages.

use vstd::prelude::*;

use crate::mmu_spec::{suffix_sum, ArchMMUSpec};
use crate::error::ErrorKind;
use crate::translate::{
    is_page_size_of, leaf_level, leaf_size, lemma_top_entry_not_present, lemma_translate_keeps_page_offset,
    max_phys, read_pte_spec, translate_spec, PhysicalAddress,
};
use crate::types::bit_set;
use crate::types::{bit_mask_spec, Endianess, Length};

verus! {

/// The x86-PAE layout.
pub open spec fn is_x86_pae_layout(m: &ArchMMUSpec) -> bool {
    &&& m.splits() == seq![2u8, 9u8, 9u8, 12u8]
    &&& m.valid_final_page_steps@ == seq![1usize, 2usize]
    &&& m.address_space_bits == 36
    &&& m.pte_size == 8
    &&& m.present_bit == 0
    &&& m.writeable_bit == 1
    &&& m.nx_bit == 63
    &&& m.large_page_bit == 7
    &&& !m.large_page_when_clear
}

pub fn bits() -> (r: u8)
    ensures
        r == 32,
{
    32
}

pub fn endianess() -> (r: Endianess)
    ensures
        r == Endianess::LittleEndian,
{
    Endianess::LittleEndian
}

/// Size of an address of this architecture.
pub fn len_addr() -> (r: Length)
    ensures
        r.bytes == 4,
{
    Length::from(4)
}

pub fn get_mmu_spec() -> (r: ArchMMUSpec)
    ensures
        is_x86_pae_layout(&r),
        r.wf(),
{
    let r = ArchMMUSpec {
        virtual_address_splits: vec![2, 9, 9, 12],
        valid_final_page_steps: vec![1, 2],
        address_space_bits: 36,
        pte_size: 8,
        present_bit: 0,
        writeable_bit: 1,
        nx_bit: 63,
        large_page_bit: 7,
        large_page_when_clear: false,
    };
    proof {
        assert(r.splits() =~= seq![2u8, 9u8, 9u8, 12u8]);
        assert(r.valid_final_page_steps@ =~= seq![1usize, 2usize]);
        reveal_with_fuel(suffix_sum, 5);
    }
    r
}

/// Size of a regular page.
pub fn page_size() -> (r: Length)
    ensures
        r.bytes == 4096,
{
    page_size_level(1)
}

/// Size of a page `pt_level` steps above the page offset: 4 KiB, 2 MiB or 1 GiB.
pub fn page_size_level(pt_level: u32) -> (r: Length)
    requires
        1 <= pt_level <= 3,
    ensures
        r.bytes == (if pt_level == 1 {
            4096u64
        } else if pt_level == 2 {
            0x20_0000u64
        } else {
            0x4000_0000u64
        }),
{
    let m = get_mmu_spec();
    let r = m.page_size_level(pt_level as usize);
    proof {
        lemma_page_sizes(&m);
    }
    r
}

/// Leaf pages of the x86-PAE layout: 4 KiB at the last table, 2 MiB one step up.
pub proof fn lemma_page_sizes(m: &ArchMMUSpec)
    requires
        is_x86_pae_layout(m),
    ensures
        m.page_size_step_spec(3) == 4096,
        m.page_size_step_spec(2) == 0x20_0000,
        m.page_size_step_spec(1) == 0x4000_0000,
{
    reveal_with_fuel(suffix_sum, 5);
    assert((1u64 << 12u64) == 4096u64 && (1u64 << 21u64) == 0x20_0000u64 && (1u64 << 30u64)
        == 0x4000_0000u64) by (bit_vector);
}

/// The entry masks of the x86-PAE layout: the directory table base keeps bits
/// 5 to 35 (a 32-byte aligned table of four entries), the entries of the two
/// lower tables keep bits 12 to 35.
pub proof fn lemma_pte_addr_masks(m: &ArchMMUSpec, pte: u64)
    requires
        is_x86_pae_layout(m),
    ensures
        m.pte_addr_mask_spec(pte, 0) == pte & bit_mask_spec(5, 35),
        m.pte_addr_mask_spec(pte, 1) == pte & bit_mask_spec(12, 35),
        m.pte_addr_mask_spec(pte, 2) == pte & bit_mask_spec(12, 35),
        m.pte_addr_mask_spec(pte, 3) == pte & bit_mask_spec(12, 35),
{
}

/// A translation over the x86-PAE layout that succeeds ends in a 4 KiB or a
/// 2 MiB page, keeps the offset inside it, and gives an address below 2^36.
pub proof fn lemma_translation_pages(m: &ArchMMUSpec, mem: Seq<u8>, e: Endianess, dtb: u64, vaddr: u64)
    requires
        is_x86_pae_layout(m),
        m.wf(),
    ensures
        translate_spec(mem, m, e, dtb, vaddr) is Ok ==> {
            let pa = translate_spec(mem, m, e, dtb, vaddr)->Ok_0;
            &&& pa.page_size == 4096 || pa.page_size == 0x20_0000
            &&& pa.address.addr & ((pa.page_size - 1) as u64) == vaddr & ((pa.page_size - 1) as u64)
            &&& pa.address.addr < 0x10_0000_0000
        },
{
    lemma_translate_keeps_page_offset(mem, m, e, dtb, vaddr);
    lemma_page_sizes(m);
    if translate_spec(mem, m, e, dtb, vaddr) is Ok {
        let pa = translate_spec(mem, m, e, dtb, vaddr)->Ok_0;
        assert(is_page_size_of(m, pa.page_size));
        let l = choose|l: nat| leaf_level(m, l) && #[trigger] leaf_size(m, l) == pa.page_size;
        if l != 2 {
            assert(m.valid_final_page_steps@.contains(l as usize));
            let w = choose|w: int|
                0 <= w < m.valid_final_page_steps@.len() && #[trigger] m.valid_final_page_steps@[w]
                    == l as usize;
            assert(w == 0 || w == 1);
        }
        assert(max_phys(m) == !0u64 >> 28u64);
        assert(!0u64 >> 28u64 == 0xf_ffff_ffffu64) by (bit_vector);
    }
}

/// Over the x86-PAE layout, an address whose top entry (the eight bytes at
/// `(dtb & bits 5..=35) + ((vaddr >> 30) & 3) * 8`) reads with bit 0 clear
/// does not translate: the result is `PageNotPresent`.
pub proof fn lemma_pae_top_entry_not_present(
    m: &ArchMMUSpec,
    mem: Seq<u8>,
    e: Endianess,
    dtb: u64,
    vaddr: u64,
)
    requires
        is_x86_pae_layout(m),
        m.wf(),
        read_pte_spec(mem, m, e, (dtb & bit_mask_spec(5, 35)) + ((vaddr >> 30u64) & 3u64) * 8) is Some,
        !bit_set(
            read_pte_spec(mem, m, e, (dtb & bit_mask_spec(5, 35)) + ((vaddr >> 30u64) & 3u64) * 8)->Some_0,
            0,
        ),
    ensures
        translate_spec(mem, m, e, dtb, vaddr) == Err::<PhysicalAddress, ErrorKind>(
            ErrorKind::PageNotPresent,
        ),
{
    lemma_pte_addr_masks(m, dtb);
    reveal_with_fuel(suffix_sum, 5);
    assert(m.index_low_bit(0) == 30);
    assert(((1u64 << 2u64) - 1) as u64 == 3u64) by (bit_vector);
    assert(m.index_spec(vaddr, 0) == (vaddr >> 30u64) & 3u64);
    lemma_top_entry_not_present(mem, m, e, dtb, vaddr);
}

} // verus!
