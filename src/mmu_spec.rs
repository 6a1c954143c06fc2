//! Table-driven description of a page-table layout and the bit-exact
//! primitives that a page-table walk is made of.
//!
//! Steps are numbered from the top: step 0 is the table that the directory
//! table base points to, the last step is the offset inside a page. An entry
//! read at step `s` points either to the table of step `s + 1` or, when it is
//! a leaf, to a page of `page_size_step(s + 1)` bytes.

use vstd::prelude::*;

use crate::types::{bit_mask_spec, bit_set, make_bit_mask, Address, Length};

verus! {

/// Sum of `s[i..]`.
pub open spec fn suffix_sum(s: Seq<u8>, i: nat) -> nat
    decreases s.len() - i,
{
    if i >= s.len() {
        0
    } else {
        s[i as int] as nat + suffix_sum(s, i + 1)
    }
}

/// Later suffixes never sum to more.
pub proof fn lemma_suffix_sum_mono(s: Seq<u8>, i: nat, j: nat)
    requires
        i <= j,
    ensures
        suffix_sum(s, j) <= suffix_sum(s, i),
    decreases j - i,
{
    if i < j {
        lemma_suffix_sum_mono(s, i + 1, j);
    }
}

/// The page-table layout of an architecture.
pub struct ArchMMUSpec {
    /// Bits of a virtual address consumed at each step, most significant first;
    /// the last entry is the width of the offset inside a page.
    pub virtual_address_splits: Vec<u8>,
    /// Entry steps at which an entry with the large-page bit set is a leaf.
    pub valid_final_page_steps: Vec<usize>,
    /// Width of a physical address.
    pub address_space_bits: u8,
    /// Size of a page-table entry in bytes.
    pub pte_size: usize,
    pub present_bit: u8,
    pub writeable_bit: u8,
    pub nx_bit: u8,
    pub large_page_bit: u8,
    /// Whether an entry marks a large page by the large-page bit being clear
    /// rather than set (AArch64 marks a next-level table by setting it).
    pub large_page_when_clear: bool,
}

impl ArchMMUSpec {
    pub open spec fn splits(&self) -> Seq<u8> {
        self.virtual_address_splits@
    }

    pub open spec fn step_count(&self) -> nat {
        self.splits().len()
    }

    /// Width of the virtual address: the sum of all splits.
    pub open spec fn virt_bits(&self) -> nat {
        suffix_sum(self.splits(), 0)
    }

    pub open spec fn pte_size_log2(&self) -> u64 {
        if self.pte_size == 8 {
            3
        } else {
            2
        }
    }

    /// The invariant that every layout satisfies.
    pub open spec fn wf(&self) -> bool {
        &&& 2 <= self.step_count() <= 8
        &&& self.virt_bits() == 32 || self.virt_bits() == 48 || self.virt_bits() == 64
        &&& forall|i: int| 0 <= i < self.step_count() ==> 1 <= #[trigger] self.splits()[i] <= 32
        &&& self.pte_size == 4 || self.pte_size == 8
        &&& self.address_space_bits <= self.pte_size * 8
        &&& self.address_space_bits < 64
        &&& suffix_sum(self.splits(), 1) < self.address_space_bits
        &&& forall|i: int|
            0 <= i < self.step_count() ==> #[trigger] self.splits()[i] + self.pte_size_log2()
                < self.address_space_bits
        &&& self.present_bit < self.pte_size * 8
        &&& self.writeable_bit < self.pte_size * 8
        &&& self.nx_bit < self.pte_size * 8
        &&& self.large_page_bit < self.pte_size * 8
        &&& forall|i: int|
            0 <= i < self.valid_final_page_steps@.len() ==> #[trigger] self.valid_final_page_steps@[i]
                < self.step_count() - 1
    }

    /// Lowest virtual-address bit of the index at `step` (the offset width for the last step).
    pub open spec fn index_low_bit(&self, step: nat) -> nat {
        suffix_sum(self.splits(), step + 1)
    }

    /// The index into the table of `step` that a virtual address selects.
    pub open spec fn index_spec(&self, vaddr: u64, step: nat) -> u64 {
        (vaddr >> (self.index_low_bit(step) as u64)) & (((1u64 << (self.splits()[step as int] as u64))
            - 1) as u64)
    }

    /// Lowest physical-address bit kept by `pte_addr_mask` at `step`: the alignment of
    /// the table of that step, or of a page for the last step.
    pub open spec fn mask_low_bit(&self, step: nat) -> u64 {
        if step == self.step_count() - 1 {
            self.splits()[step as int] as u64
        } else {
            (self.splits()[step as int] + self.pte_size_log2()) as u64
        }
    }

    /// The physical address held in `pte` that addresses the table (or page) of `step`.
    pub open spec fn pte_addr_mask_spec(&self, pte: u64, step: nat) -> u64 {
        pte & bit_mask_spec(self.mask_low_bit(step), (self.address_space_bits - 1) as u64)
    }

    /// Size of a page that a leaf entry pointing at `step` maps.
    pub open spec fn page_size_step_spec(&self, step: nat) -> u64 {
        1u64 << (suffix_sum(self.splits(), step) as u64)
    }

    /// The frame address of a leaf entry that points at `step`.
    pub open spec fn page_frame_spec(&self, pte: u64, step: nat) -> u64 {
        pte & bit_mask_spec(
            suffix_sum(self.splits(), step) as u64,
            (self.address_space_bits - 1) as u64,
        )
    }

    /// Whether the entry `pte` is marked as a large page.
    pub open spec fn is_large_spec(&self, pte: u64) -> bool {
        bit_set(pte, self.large_page_bit as u64) != self.large_page_when_clear
    }

    /// Whether an entry read at `level` is a leaf.
    pub open spec fn is_leaf_spec(&self, pte: u64, level: nat) -> bool {
        level == self.step_count() - 2 || (self.is_large_spec(pte)
            && self.valid_final_page_steps@.contains(level as usize))
    }

    /// Whether `other` describes the same layout, field for field.
    pub open spec fn same_layout(&self, other: &ArchMMUSpec) -> bool {
        &&& self.splits() == other.splits()
        &&& self.valid_final_page_steps@ == other.valid_final_page_steps@
        &&& self.address_space_bits == other.address_space_bits
        &&& self.pte_size == other.pte_size
        &&& self.present_bit == other.present_bit
        &&& self.writeable_bit == other.writeable_bit
        &&& self.nx_bit == other.nx_bit
        &&& self.large_page_bit == other.large_page_bit
        &&& self.large_page_when_clear == other.large_page_when_clear
    }

    pub fn split_count(&self) -> (r: usize)
        ensures
            r == self.step_count(),
    {
        self.virtual_address_splits.len()
    }

    /// Sum of the splits from `step` on.
    fn suffix_bits(&self, step: usize) -> (r: u8)
        requires
            self.wf(),
            step <= self.step_count(),
        ensures
            r as nat == suffix_sum(self.splits(), step as nat),
    {
        let mut k: usize = self.virtual_address_splits.len();
        let mut acc: u8 = 0;
        while k > step
            invariant
                step <= k <= self.step_count(),
                acc as nat == suffix_sum(self.splits(), k as nat),
                self.wf(),
            decreases k,
        {
            k = k - 1;
            proof {
                lemma_suffix_sum_mono(self.splits(), 0, k as nat);
            }
            acc = acc + self.virtual_address_splits[k];
        }
        acc
    }

    /// The bits `(low, high)` of a virtual address that index the table of `step`:
    /// the index is `vaddr[low..high]`.
    pub fn virt_addr_bit_range(&self, step: usize) -> (r: (u8, u8))
        requires
            self.wf(),
            step < self.step_count(),
        ensures
            r.0 as nat == self.index_low_bit(step as nat),
            r.1 as nat == suffix_sum(self.splits(), step as nat),
            r.1 == r.0 + self.splits()[step as int],
    {
        let high = self.suffix_bits(step);
        let low = self.suffix_bits(step + 1);
        (low, high)
    }

    /// The index that `addr` selects in the table of `step`.
    pub fn virt_addr_to_page_table_index(&self, addr: Address, step: usize) -> (r: u64)
        requires
            self.wf(),
            step < self.step_count(),
        ensures
            r == self.index_spec(addr.addr, step as nat),
            r < (1u64 << (self.splits()[step as int] as u64)),
    {
        let (low, high) = self.virt_addr_bit_range(step);
        proof {
            lemma_suffix_sum_mono(self.splits(), 0, step as nat);
        }
        let split = self.virtual_address_splits[step] as u64;
        let v = addr.addr;
        let lo = low as u64;
        assert((1u64 << split) >= 1) by (bit_vector)
            requires
                1 <= split <= 32,
        ;
        let r = (v >> lo) & ((1u64 << split) - 1);
        assert(((v >> lo) & (((1u64 << split) - 1) as u64)) < (1u64 << split)) by (bit_vector)
            requires
                1 <= split <= 32,
        ;
        r
    }

    /// Byte size of the table of `step`: one entry per index value.
    pub fn pt_leaf_size(&self, step: usize) -> (r: Length)
        requires
            self.wf(),
            step < self.step_count(),
        ensures
            r.bytes == (1u64 << (self.splits()[step as int] as u64)) * self.pte_size,
    {
        let split = self.virtual_address_splits[step] as u64;
        let count = 1u64 << split;
        assert(1u64 << split <= 0x1_0000_0000u64) by (bit_vector)
            requires
                split <= 32,
        ;
        Length::from(count * self.pte_size as u64)
    }

    /// Size of a page mapped by a leaf entry that points at `step`.
    pub fn page_size_step(&self, step: usize) -> (r: Length)
        requires
            self.wf(),
            1 <= step < self.step_count(),
        ensures
            r.bytes == self.page_size_step_spec(step as nat),
            suffix_sum(self.splits(), step as nat) < 64,
    {
        let bits = self.suffix_bits(step);
        proof {
            assert(suffix_sum(self.splits(), 0) == self.splits()[0] + suffix_sum(self.splits(), 1));
            lemma_suffix_sum_mono(self.splits(), 1, step as nat);
        }
        Length::from(1u64 << bits as u64)
    }

    /// Size of a page `level` steps above the offset: level 1 is the smallest page.
    pub fn page_size_level(&self, level: usize) -> (r: Length)
        requires
            self.wf(),
            1 <= level < self.step_count(),
        ensures
            r.bytes == self.page_size_step_spec((self.step_count() - level) as nat),
    {
        self.page_size_step(self.virtual_address_splits.len() - level)
    }

    /// The physical address that `pte` holds for the table (or page) of `step`:
    /// bits below the alignment of that table and bits at or above the
    /// physical address width are cleared.
    pub fn pte_addr_mask(&self, pte: Address, step: usize) -> (r: u64)
        requires
            self.wf(),
            step < self.step_count(),
        ensures
            r == self.pte_addr_mask_spec(pte.addr, step as nat),
    {
        let low = if step == self.virtual_address_splits.len() - 1 {
            self.virtual_address_splits[step]
        } else if self.pte_size == 8 {
            self.virtual_address_splits[step] + 3
        } else {
            self.virtual_address_splits[step] + 2
        };
        pte.addr & make_bit_mask(low, self.address_space_bits - 1)
    }

    /// The frame address of a leaf entry that points at `step`.
    pub fn page_frame(&self, pte: Address, step: usize) -> (r: u64)
        requires
            self.wf(),
            1 <= step < self.step_count(),
        ensures
            r == self.page_frame_spec(pte.addr, step as nat),
    {
        let low = self.suffix_bits(step);
        proof {
            assert(suffix_sum(self.splits(), step as nat) == self.splits()[step as int] + suffix_sum(
                self.splits(),
                (step + 1) as nat,
            ));
            if step + 1 < self.step_count() {
                assert(self.splits()[step + 1] >= 1);
                assert(suffix_sum(self.splits(), (step + 1) as nat) == self.splits()[step + 1]
                    + suffix_sum(self.splits(), (step + 2) as nat));
            }
            lemma_suffix_sum_mono(self.splits(), 1, step as nat);
        }
        pte.addr & make_bit_mask(low, self.address_space_bits - 1)
    }

    pub fn pte_present(&self, pte: Address) -> (r: bool)
        requires
            self.wf(),
        ensures
            r == bit_set(pte.addr, self.present_bit as u64),
    {
        pte.bit_at(self.present_bit)
    }

    pub fn pte_writeable(&self, pte: Address) -> (r: bool)
        requires
            self.wf(),
        ensures
            r == bit_set(pte.addr, self.writeable_bit as u64),
    {
        pte.bit_at(self.writeable_bit)
    }

    pub fn pte_nx(&self, pte: Address) -> (r: bool)
        requires
            self.wf(),
        ensures
            r == bit_set(pte.addr, self.nx_bit as u64),
    {
        pte.bit_at(self.nx_bit)
    }

    pub fn pte_large_page(&self, pte: Address) -> (r: bool)
        requires
            self.wf(),
        ensures
            r == self.is_large_spec(pte.addr),
    {
        pte.bit_at(self.large_page_bit) != self.large_page_when_clear
    }

    /// Whether the entry `pte` read at `level` ends the walk.
    pub fn valid_leaf_at(&self, pte: Address, level: usize) -> (r: bool)
        requires
            self.wf(),
            level < self.step_count() - 1,
        ensures
            r == self.is_leaf_spec(pte.addr, level as nat),
    {
        if level == self.virtual_address_splits.len() - 2 {
            return true;
        }
        if !self.pte_large_page(pte) {
            return false;
        }
        let mut i: usize = 0;
        while i < self.valid_final_page_steps.len()
            invariant
                i <= self.valid_final_page_steps@.len(),
                forall|j: int| 0 <= j < i ==> self.valid_final_page_steps@[j] != level,
                self.is_large_spec(pte.addr),
                level != self.step_count() - 2,
            decreases self.valid_final_page_steps@.len() - i,
        {
            if self.valid_final_page_steps[i] == level {
                assert(self.valid_final_page_steps@[i as int] == level);
                assert(self.valid_final_page_steps@.contains(level));
                return true;
            }
            i = i + 1;
        }
        false
    }
}


/// An entry built from an address that the mask of `step` keeps whole and from
/// flag bits that the mask clears gives the address back.
pub proof fn lemma_pte_addr_mask_round_trip(mmu: &ArchMMUSpec, addr: u64, flags: u64, step: nat)
    requires
        mmu.wf(),
        step < mmu.step_count(),
        addr & bit_mask_spec(mmu.mask_low_bit(step), (mmu.address_space_bits - 1) as u64) == addr,
        flags & bit_mask_spec(mmu.mask_low_bit(step), (mmu.address_space_bits - 1) as u64) == 0,
    ensures
        mmu.pte_addr_mask_spec(addr | flags, step) == addr,
{
    let mask = bit_mask_spec(mmu.mask_low_bit(step), (mmu.address_space_bits - 1) as u64);
    assert((addr | flags) & mask == addr) by (bit_vector)
        requires
            addr & mask == addr,
            flags & mask == 0,
    ;
}

/// The layout invariant bounds the shape of every layout: the virtual width is
/// 32, 48 or 64 bits, an entry is 4 or 8 bytes, and every large-page step lies
/// above the last table step.
pub proof fn lemma_layout_shape(mmu: &ArchMMUSpec)
    requires
        mmu.wf(),
    ensures
        mmu.virt_bits() == 32 || mmu.virt_bits() == 48 || mmu.virt_bits() == 64,
        mmu.pte_size == 4 || mmu.pte_size == 8,
        forall|i: int|
            0 <= i < mmu.valid_final_page_steps@.len() ==> #[trigger] mmu.valid_final_page_steps@[i]
                < mmu.step_count() - 1,
{
}

} // verus!
