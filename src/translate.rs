//! Translation of virtual addresses by walking the page tables in physical memory.

use vstd::prelude::*;

use crate::endian::{decode_u32, decode_u64, u32_from_bytes, u64_from_bytes};
use crate::error::ErrorKind;
use crate::mmu_spec::{lemma_suffix_sum_mono, suffix_sum, ArchMMUSpec};
use crate::phys_mem::{phys_read_batch, phys_readable, PhysicalMemory};
use crate::types::{bit_mask_spec, bit_set, Address, Endianess};

verus! {

/// A physical address together with the size of the page it lies in.
#[derive(Clone, Copy, Debug, PartialEq, Eq, Structural)]
pub struct PhysicalAddress {
    pub address: Address,
    pub page_size: u64,
}

/// The entry of `mmu.pte_size` bytes at physical address `addr`, if it can be read.
pub open spec fn read_pte_spec(m: Seq<u8>, mmu: &ArchMMUSpec, e: Endianess, addr: int) -> Option<
    u64,
> {
    if phys_readable(m, addr, mmu.pte_size as int) {
        let b = m.subrange(addr, addr + mmu.pte_size);
        Some(
            if mmu.pte_size == 8 {
                u64_from_bytes(b, e)
            } else {
                u32_from_bytes(b, e) as u64
            },
        )
    } else {
        None
    }
}

/// Physical address of the entry that `vaddr` selects in the table at `table`, read at `level`.
pub open spec fn pte_location(mmu: &ArchMMUSpec, table: u64, vaddr: u64, level: nat) -> int {
    table + mmu.index_spec(vaddr, level) * mmu.pte_size
}

/// The walk from the table at `table`, whose entries are read at `level`.
pub open spec fn walk_spec(
    m: Seq<u8>,
    mmu: &ArchMMUSpec,
    e: Endianess,
    table: u64,
    vaddr: u64,
    level: nat,
) -> Result<PhysicalAddress, ErrorKind>
    decreases mmu.step_count() - level,
{
    if level + 1 >= mmu.step_count() {
        Err(ErrorKind::InvalidPTE)
    } else {
        match read_pte_spec(m, mmu, e, pte_location(mmu, table, vaddr, level)) {
            None => Err(ErrorKind::PhysicalReadFailed),
            Some(pte) => {
                if !bit_set(pte, mmu.present_bit as u64) {
                    Err(ErrorKind::PageNotPresent)
                } else if mmu.is_leaf_spec(pte, level) {
                    let size = mmu.page_size_step_spec(level + 1);
                    Ok(
                        PhysicalAddress {
                            address: Address {
                                addr: mmu.page_frame_spec(pte, level + 1) | (vaddr & ((size
                                    - 1) as u64)),
                            },
                            page_size: size,
                        },
                    )
                } else {
                    walk_spec(m, mmu, e, mmu.pte_addr_mask_spec(pte, level + 1), vaddr, level + 1)
                }
            },
        }
    }
}

/// The translation of `vaddr` in the address space whose top table is at `dtb`.
pub open spec fn translate_spec(
    m: Seq<u8>,
    mmu: &ArchMMUSpec,
    e: Endianess,
    dtb: u64,
    vaddr: u64,
) -> Result<PhysicalAddress, ErrorKind> {
    walk_spec(m, mmu, e, mmu.pte_addr_mask_spec(dtb, 0), vaddr, 0)
}

/// Every masked table address stays below 2^63.
proof fn lemma_mask_below(x: u64, lo: u64, hi: u64)
    requires
        lo <= hi < 63,
    ensures
        x & bit_mask_spec(lo, hi) <= 0x7fff_ffff_ffff_ffffu64,
{
    assert(x & ((!0u64 >> ((63 - hi) as u64)) & (!0u64 << lo)) <= 0x7fff_ffff_ffff_ffffu64)
        by (bit_vector)
        requires
            lo <= hi < 63,
    ;
}

/// The entry that a physical read of it gave, decoded.
fn decode_pte(
    mmu: &ArchMMUSpec,
    Ghost(m): Ghost<Seq<u8>>,
    e: Endianess,
    addr: u64,
    read: &Result<Vec<u8>, ErrorKind>,
) -> (r: Option<u64>)
    requires
        mmu.wf(),
        phys_readable(m, addr as int, mmu.pte_size as int) ==> read is Ok && read->Ok_0@
            == m.subrange(addr as int, addr + mmu.pte_size),
        !phys_readable(m, addr as int, mmu.pte_size as int) ==> read is Err,
    ensures
        r == read_pte_spec(m, mmu, e, addr as int),
{
    match read {
        Ok(bytes) => {
            if mmu.pte_size == 8 {
                Some(decode_u64(bytes.as_slice(), e))
            } else {
                Some(decode_u32(bytes.as_slice(), e) as u64)
            }
        },
        Err(_) => None,
    }
}

/// Reads the entry at `addr`.
fn read_pte<T: PhysicalMemory>(mem: &T, mmu: &ArchMMUSpec, e: Endianess, addr: u64) -> (r: Option<
    u64,
>)
    requires
        mmu.wf(),
    ensures
        r == read_pte_spec(mem.phys_view(), mmu, e, addr as int),
{
    let read = mem.phys_read_raw(addr, mmu.pte_size);
    decode_pte(mmu, Ghost(mem.phys_view()), e, addr, &read)
}

/// Where the translation of one address stands in a walk.
#[derive(Clone, Copy)]
enum Slot {
    /// Translated, or failed.
    Done(Result<PhysicalAddress, ErrorKind>),
    /// Still walking: the table whose entry is read next, and the step of that entry.
    Walking(u64, usize),
}

/// Whether `s` is a true account of the translation of `vaddr`.
spec fn slot_ok(m: Seq<u8>, mmu: &ArchMMUSpec, e: Endianess, dtb: u64, vaddr: u64, s: Slot) -> bool {
    match s {
        Slot::Done(r) => r == translate_spec(m, mmu, e, dtb, vaddr),
        Slot::Walking(t, l) => t <= 0x7fff_ffff_ffff_ffffu64 && l + 1 <= mmu.step_count() && walk_spec(
            m,
            mmu,
            e,
            t,
            vaddr,
            l as nat,
        ) == translate_spec(m, mmu, e, dtb, vaddr),
    }
}

/// One step of a walk: what the entry `pte` read at `level` from the table at
/// `table` makes of the translation of `vaddr`.
fn walk_step(
    mmu: &ArchMMUSpec,
    Ghost(m): Ghost<Seq<u8>>,
    e: Endianess,
    table: u64,
    pte: Option<u64>,
    vaddr: Address,
    level: usize,
) -> (r: Slot)
    requires
        mmu.wf(),
        level + 1 < mmu.step_count(),
        read_pte_spec(m, mmu, e, pte_location(mmu, table, vaddr.addr, level as nat)) == pte,
    ensures
        match r {
            Slot::Done(res) => walk_spec(m, mmu, e, table, vaddr.addr, level as nat) == res,
            Slot::Walking(t, l) => l == level + 1 && t <= 0x7fff_ffff_ffff_ffffu64 && walk_spec(
                m,
                mmu,
                e,
                table,
                vaddr.addr,
                level as nat,
            ) == walk_spec(m, mmu, e, t, vaddr.addr, l as nat),
        },
{
    match pte {
        None => Slot::Done(Err(ErrorKind::PhysicalReadFailed)),
        Some(raw) => {
            let pte = Address::from_u64(raw);
            if !mmu.pte_present(pte) {
                return Slot::Done(Err(ErrorKind::PageNotPresent));
            }
            if mmu.valid_leaf_at(pte, level) {
                let size = mmu.page_size_step(level + 1).as_u64();
                proof {
                    let k = suffix_sum(mmu.splits(), (level + 1) as nat) as u64;
                    assert((1u64 << k) >= 1) by (bit_vector)
                        requires
                            k < 64,
                    ;
                }
                let frame = mmu.page_frame(pte, level + 1);
                return Slot::Done(
                    Ok(
                        PhysicalAddress {
                            address: Address::from_u64(frame | (vaddr.addr & (size - 1))),
                            page_size: size,
                        },
                    ),
                );
            }
            proof {
                lemma_mask_below(
                    raw,
                    mmu.mask_low_bit((level + 1) as nat),
                    (mmu.address_space_bits - 1) as u64,
                );
            }
            Slot::Walking(mmu.pte_addr_mask(pte, level + 1), level + 1)
        },
    }
}

/// Physical address of the entry that `vaddr` selects in the table at `table`, read at `level`.
fn entry_location(mmu: &ArchMMUSpec, table: u64, vaddr: Address, level: usize) -> (r: u64)
    requires
        mmu.wf(),
        level < mmu.step_count(),
        table <= 0x7fff_ffff_ffff_ffffu64,
    ensures
        r == pte_location(mmu, table, vaddr.addr, level as nat),
{
    let index = mmu.virt_addr_to_page_table_index(vaddr, level);
    let split = mmu.virtual_address_splits[level] as u64;
    assert((1u64 << split) <= 0x1_0000_0000u64) by (bit_vector)
        requires
            split <= 32,
    ;
    let ps = mmu.pte_size as u64;
    assert(index * ps <= 0x8_0000_0000u64) by (nonlinear_arith)
        requires
            index < 0x1_0000_0000u64,
            ps <= 8,
    ;
    table + index * ps
}

/// Translates `vaddr` in the address space whose top table is at `dtb`.
pub fn virt_to_phys<T: PhysicalMemory>(
    mem: &T,
    mmu: &ArchMMUSpec,
    e: Endianess,
    dtb: Address,
    vaddr: Address,
) -> (r: Result<PhysicalAddress, ErrorKind>)
    requires
        mmu.wf(),
    ensures
        r == translate_spec(mem.phys_view(), mmu, e, dtb.addr, vaddr.addr),
{
    let count = mmu.split_count();
    let mut table = mmu.pte_addr_mask(dtb, 0);
    let mut level: usize = 0;
    proof {
        lemma_mask_below(dtb.addr, mmu.mask_low_bit(0), (mmu.address_space_bits - 1) as u64);
    }
    while level + 1 < count
        invariant
            mmu.wf(),
            count == mmu.step_count(),
            level + 1 <= count,
            table <= 0x7fff_ffff_ffff_ffffu64,
            walk_spec(mem.phys_view(), mmu, e, table, vaddr.addr, level as nat) == translate_spec(
                mem.phys_view(),
                mmu,
                e,
                dtb.addr,
                vaddr.addr,
            ),
        decreases count - level,
    {
        let pte_addr = entry_location(mmu, table, vaddr, level);
        let pte = read_pte(mem, mmu, e, pte_addr);
        match walk_step(mmu, Ghost(mem.phys_view()), e, table, pte, vaddr, level) {
            Slot::Done(r) => {
                return r;
            },
            Slot::Walking(t, l) => {
                table = t;
                level = l;
            },
        }
    }
    Err(ErrorKind::InvalidPTE)
}

/// A walk that ends in a page keeps the offset of the virtual address inside that page.
/// Whether the entries read at `level` may be leaves of the layout.
pub open spec fn leaf_level(mmu: &ArchMMUSpec, level: nat) -> bool {
    level + 1 < mmu.step_count() && (level == mmu.step_count() - 2
        || mmu.valid_final_page_steps@.contains(level as usize))
}

/// Size of a page mapped by a leaf read at `level`.
pub open spec fn leaf_size(mmu: &ArchMMUSpec, level: nat) -> u64 {
    mmu.page_size_step_spec(level + 1)
}

/// Whether `size` is the size of a page that a leaf of the layout maps.
pub open spec fn is_page_size_of(mmu: &ArchMMUSpec, size: u64) -> bool {
    exists|l: nat| leaf_level(mmu, l) && #[trigger] leaf_size(mmu, l) == size
}

/// Largest physical address of the layout: all bits below its width set.
pub open spec fn max_phys(mmu: &ArchMMUSpec) -> u64 {
    !0u64 >> ((64 - mmu.address_space_bits) as u64)
}

proof fn lemma_walk_keeps_offset(
    m: Seq<u8>,
    mmu: &ArchMMUSpec,
    e: Endianess,
    table: u64,
    vaddr: u64,
    level: nat,
)
    requires
        mmu.wf(),
    ensures
        walk_spec(m, mmu, e, table, vaddr, level) is Ok ==> {
            let pa = walk_spec(m, mmu, e, table, vaddr, level)->Ok_0;
            &&& pa.page_size >= 1
            &&& pa.address.addr & ((pa.page_size - 1) as u64) == vaddr & ((pa.page_size - 1) as u64)
            &&& pa.address.addr <= max_phys(mmu)
            &&& is_page_size_of(mmu, pa.page_size)
        },
    decreases mmu.step_count() - level,
{
    if level + 1 < mmu.step_count() {
        match read_pte_spec(m, mmu, e, pte_location(mmu, table, vaddr, level)) {
            None => {},
            Some(pte) => {
                if bit_set(pte, mmu.present_bit as u64) {
                    if mmu.is_leaf_spec(pte, level) {
                        lemma_suffix_sum_mono(mmu.splits(), 1, level + 1);
                        let k = suffix_sum(mmu.splits(), level + 1) as u64;
                        let hi = (mmu.address_space_bits - 1) as u64;
                        assert((1u64 << k) >= 1 && ((pte & ((!0u64 >> ((63 - hi) as u64)) & (!0u64
                            << k))) | (vaddr & (((1u64 << k) - 1) as u64))) & (((1u64 << k) - 1)
                            as u64) == vaddr & (((1u64 << k) - 1) as u64)) by (bit_vector)
                            requires
                                k <= hi < 64,
                        ;
                        assert(((pte & ((!0u64 >> ((63 - hi) as u64)) & (!0u64 << k))) | (vaddr & (((
                        1u64 << k) - 1) as u64))) <= !0u64 >> ((63 - hi) as u64)) by (bit_vector)
                            requires
                                k <= hi < 64,
                        ;
                        assert((63 - hi) as u64 == (64 - mmu.address_space_bits) as u64);
                        assert(leaf_level(mmu, level));
                        assert(leaf_size(mmu, level) == mmu.page_size_step_spec(level + 1));
                    } else {
                        lemma_walk_keeps_offset(
                            m,
                            mmu,
                            e,
                            mmu.pte_addr_mask_spec(pte, level + 1),
                            vaddr,
                            level + 1,
                        );
                    }
                }
            },
        }
    }
}

/// A successful translation keeps the offset inside the page:
/// `paddr & (page_size - 1) == vaddr & (page_size - 1)`; the physical address
/// fits in the layout's width, and the page size is one that a leaf of the
/// layout maps.
pub proof fn lemma_translate_keeps_page_offset(
    m: Seq<u8>,
    mmu: &ArchMMUSpec,
    e: Endianess,
    dtb: u64,
    vaddr: u64,
)
    requires
        mmu.wf(),
    ensures
        translate_spec(m, mmu, e, dtb, vaddr) is Ok ==> {
            let pa = translate_spec(m, mmu, e, dtb, vaddr)->Ok_0;
            &&& pa.page_size >= 1
            &&& pa.address.addr & ((pa.page_size - 1) as u64) == vaddr & ((pa.page_size - 1) as u64)
            &&& pa.address.addr <= max_phys(mmu)
            &&& is_page_size_of(mmu, pa.page_size)
        },
{
    lemma_walk_keeps_offset(m, mmu, e, mmu.pte_addr_mask_spec(dtb, 0), vaddr, 0);
}

/// An address whose top-level entry is readable but not present does not translate:
/// the result is `PageNotPresent`.
pub proof fn lemma_top_entry_not_present(
    m: Seq<u8>,
    mmu: &ArchMMUSpec,
    e: Endianess,
    dtb: u64,
    vaddr: u64,
)
    requires
        mmu.wf(),
        read_pte_spec(m, mmu, e, pte_location(mmu, mmu.pte_addr_mask_spec(dtb, 0), vaddr, 0))
            is Some,
        !bit_set(
            read_pte_spec(
                m,
                mmu,
                e,
                pte_location(mmu, mmu.pte_addr_mask_spec(dtb, 0), vaddr, 0),
            )->Some_0,
            mmu.present_bit as u64,
        ),
    ensures
        translate_spec(m, mmu, e, dtb, vaddr) == Err::<PhysicalAddress, ErrorKind>(
            ErrorKind::PageNotPresent,
        ),
{
}

/// Walks over two layouts that agree field for field agree.
pub proof fn lemma_walk_same_layout(
    m: Seq<u8>,
    a: &ArchMMUSpec,
    b: &ArchMMUSpec,
    e: Endianess,
    table: u64,
    vaddr: u64,
    level: nat,
)
    requires
        a.same_layout(b),
    ensures
        walk_spec(m, a, e, table, vaddr, level) == walk_spec(m, b, e, table, vaddr, level),
    decreases a.step_count() - level,
{
    if level + 1 < a.step_count() {
        match read_pte_spec(m, a, e, pte_location(a, table, vaddr, level)) {
            None => {},
            Some(pte) => {
                lemma_walk_same_layout(m, a, b, e, a.pte_addr_mask_spec(pte, level + 1), vaddr, level + 1);
            },
        }
    }
}

/// A virtual address to translate, with a tag that the caller chooses.
#[derive(Clone, Copy, Debug, PartialEq, Eq, Structural)]
pub struct TranslationRequest {
    pub vaddr: Address,
    pub tag: usize,
}

/// The outcome of one request, under the request's tag.
#[derive(Clone, Copy, Debug, PartialEq, Eq)]
pub struct TranslationResult {
    pub tag: usize,
    pub result: Result<PhysicalAddress, ErrorKind>,
}

/// Translates a batch of addresses in one address space, one step of the
/// walk for all of them at a time: the entries of each step are read in one
/// physical batch. A failure of one request does not affect the others; each
/// tag comes back exactly once, in the order of the requests.
pub fn translate_batch<T: PhysicalMemory>(
    mem: &T,
    mmu: &ArchMMUSpec,
    e: Endianess,
    dtb: Address,
    requests: &Vec<TranslationRequest>,
) -> (r: Vec<TranslationResult>)
    requires
        mmu.wf(),
    ensures
        r@.len() == requests@.len(),
        forall|i: int|
            0 <= i < r@.len() ==> #[trigger] r@[i].tag == requests@[i].tag && r@[i].result
                == translate_spec(mem.phys_view(), mmu, e, dtb.addr, requests@[i].vaddr.addr),
{
    let ghost m = mem.phys_view();
    let n = requests.len();
    let count = mmu.split_count();
    let top = mmu.pte_addr_mask(dtb, 0);
    proof {
        lemma_mask_below(dtb.addr, mmu.mask_low_bit(0), (mmu.address_space_bits - 1) as u64);
    }
    let mut slots: Vec<Slot> = Vec::with_capacity(n);
    let mut i: usize = 0;
    while i < n
        invariant
            n == requests@.len(),
            i <= n,
            slots@.len() == i,
            top == mmu.pte_addr_mask_spec(dtb.addr, 0),
            top <= 0x7fff_ffff_ffff_ffffu64,
            mmu.step_count() >= 2,
            forall|j: int| 0 <= j < i ==> #[trigger] slots@[j] == Slot::Walking(top, 0),
        decreases n - i,
    {
        slots.push(Slot::Walking(top, 0));
        i = i + 1;
    }
    let mut level: usize = 0;
    while level + 1 < count
        invariant
            mmu.wf(),
            m == mem.phys_view(),
            count == mmu.step_count(),
            n == requests@.len(),
            slots@.len() == n,
            level + 1 <= count,
            forall|j: int|
                0 <= j < n ==> slot_ok(m, mmu, e, dtb.addr, requests@[j].vaddr.addr, #[trigger] slots@[j]),
            forall|j: int|
                0 <= j < n ==> (#[trigger] slots@[j] is Walking ==> slots@[j]->Walking_1 == level),
        decreases count - level,
    {
        // the entries of this step, one per address still walking
        let mut ranges: Vec<(u64, usize)> = Vec::new();
        let mut owners: Vec<usize> = Vec::new();
        let mut i: usize = 0;
        while i < n
            invariant
                mmu.wf(),
                n == slots@.len(),
                n == requests@.len(),
                level + 1 < count,
                count == mmu.step_count(),
                i <= n,
                ranges@.len() == owners@.len(),
                forall|j: int| 0 <= j < n ==> slot_ok(m, mmu, e, dtb.addr, requests@[j].vaddr.addr, #[trigger] slots@[j]),
                forall|j: int| 0 <= j < n ==> (#[trigger] slots@[j] is Walking ==> slots@[j]->Walking_1 == level),
                forall|k: int| 0 <= k < owners@.len() ==> #[trigger] owners@[k] < i,
                forall|k1: int, k2: int| 0 <= k1 < k2 < owners@.len() ==> owners@[k1] < owners@[k2],
                forall|k: int|
                    #![trigger owners@[k]]
                    0 <= k < owners@.len() ==> slots@[owners@[k] as int] is Walking && ranges@[k].0 as int
                        == pte_location(
                        mmu,
                        slots@[owners@[k] as int]->Walking_0,
                        requests@[owners@[k] as int].vaddr.addr,
                        level as nat,
                    ) && ranges@[k].1 == mmu.pte_size,
                forall|j: int| 0 <= j < i && #[trigger] slots@[j] is Walking ==> owners@.contains(j as usize),
            decreases n - i,
        {
            let ghost old_owners = owners@;
            match slots[i] {
                Slot::Walking(t, _) => {
                    let loc = entry_location(mmu, t, requests[i].vaddr, level);
                    ranges.push((loc, mmu.pte_size));
                    owners.push(i);
                    proof {
                        assert(owners@[owners@.len() - 1] == i);
                    }
                },
                Slot::Done(_) => {},
            }
            proof {
                assert forall|j: int| 0 <= j < i + 1 && #[trigger] slots@[j] is Walking implies owners@.contains(
                    j as usize,
                ) by {
                    if j == i {
                        assert(owners@[owners@.len() - 1] == i);
                    } else {
                        assert(old_owners.contains(j as usize));
                        let w = choose|w: int| 0 <= w < old_owners.len() && #[trigger] old_owners[w] == j as usize;
                        assert(owners@[w] == j as usize);
                    }
                }
            }
            i = i + 1;
        }
        let reads = phys_read_batch(mem, &ranges);
        let ghost before = slots@;
        let mut k: usize = 0;
        while k < owners.len()
            invariant
                mmu.wf(),
                m == mem.phys_view(),
                n == slots@.len(),
                n == before.len(),
                n == requests@.len(),
                level + 1 < count,
                count == mmu.step_count(),
                k <= owners@.len(),
                reads@.len() == ranges@.len(),
                ranges@.len() == owners@.len(),
                forall|kk: int|
                    #![trigger reads@[kk]]
                    0 <= kk < reads@.len() ==> {
                        let (addr, len) = ranges@[kk];
                        &&& phys_readable(m, addr as int, len as int) ==> reads@[kk] is Ok
                            && reads@[kk]->Ok_0@ == m.subrange(addr as int, addr + len)
                        &&& !phys_readable(m, addr as int, len as int) ==> reads@[kk] is Err
                    },
                forall|kk: int| 0 <= kk < owners@.len() ==> #[trigger] owners@[kk] < n,
                forall|k1: int, k2: int| 0 <= k1 < k2 < owners@.len() ==> owners@[k1] < owners@[k2],
                forall|kk: int|
                    #![trigger owners@[kk]]
                    0 <= kk < owners@.len() ==> before[owners@[kk] as int] is Walking && ranges@[kk].0 as int
                        == pte_location(
                        mmu,
                        before[owners@[kk] as int]->Walking_0,
                        requests@[owners@[kk] as int].vaddr.addr,
                        level as nat,
                    ) && ranges@[kk].1 == mmu.pte_size,
                forall|j: int| 0 <= j < n && #[trigger] before[j] is Walking ==> owners@.contains(j as usize),
                forall|j: int| 0 <= j < n ==> slot_ok(m, mmu, e, dtb.addr, requests@[j].vaddr.addr, #[trigger] before[j]),
                forall|j: int| 0 <= j < n ==> (#[trigger] before[j] is Walking ==> before[j]->Walking_1 == level),
                forall|j: int| 0 <= j < n ==> slot_ok(m, mmu, e, dtb.addr, requests@[j].vaddr.addr, #[trigger] slots@[j]),
                forall|j: int|
                    0 <= j < n && !owners@.subrange(0, k as int).contains(j as usize) ==> #[trigger] slots@[j] == before[j],
                forall|j: int|
                    0 <= j < n && owners@.subrange(0, k as int).contains(j as usize) ==> (#[trigger] slots@[j] is Walking
                        ==> slots@[j]->Walking_1 == level + 1),
            decreases owners@.len() - k,
        {
            let i = owners[k];
            proof {
                assert(!owners@.subrange(0, k as int).contains(i)) by {
                    if owners@.subrange(0, k as int).contains(i) {
                        let w = choose|w: int| 0 <= w < k && #[trigger] owners@.subrange(0, k as int)[w] == i;
                        assert(owners@[w] < owners@[k as int]);
                    }
                }
                assert(slots@[i as int] == before[i as int]);
            }
            let table = match slots[i] {
                Slot::Walking(t, _) => t,
                Slot::Done(_) => 0,
            };
            let (addr, _) = ranges[k];
            let pte = decode_pte(mmu, Ghost(m), e, addr, &reads[k]);
            let next = walk_step(mmu, Ghost(m), e, table, pte, requests[i].vaddr, level);
            slots.set(i, next);
            proof {
                assert forall|j: int|
                    0 <= j < n && !owners@.subrange(0, k + 1).contains(j as usize) implies #[trigger] slots@[j]
                    == before[j] by {
                    if j != i {
                        assert(!owners@.subrange(0, k as int).contains(j as usize)) by {
                            if owners@.subrange(0, k as int).contains(j as usize) {
                                let w = choose|w: int| 0 <= w < k && #[trigger] owners@.subrange(0, k as int)[w] == j;
                                assert(owners@.subrange(0, k + 1)[w] == j);
                            }
                        }
                    } else {
                        assert(owners@.subrange(0, k + 1)[k as int] == i);
                    }
                }
                assert forall|j: int|
                    0 <= j < n && owners@.subrange(0, k + 1).contains(j as usize) implies (#[trigger] slots@[j] is Walking
                        ==> slots@[j]->Walking_1 == level + 1) by {
                    if j != i {
                        let w = choose|w: int| 0 <= w < k + 1 && #[trigger] owners@.subrange(0, k + 1)[w] == j;
                        if w == k {
                        } else {
                            assert(owners@.subrange(0, k as int)[w] == j);
                        }
                    }
                }
            }
            k = k + 1;
        }
        proof {
            assert(owners@.subrange(0, k as int) =~= owners@);
            assert forall|j: int| 0 <= j < n implies (#[trigger] slots@[j] is Walking ==> slots@[j]->Walking_1
                == level + 1) by {
                if slots@[j] is Walking && !owners@.contains(j as usize) {
                    assert(slots@[j] == before[j]);
                }
            }
        }
        level = level + 1;
    }
    let mut out: Vec<TranslationResult> = Vec::with_capacity(n);
    let mut i: usize = 0;
    while i < n
        invariant
            mmu.wf(),
            m == mem.phys_view(),
            n == requests@.len(),
            slots@.len() == n,
            level + 1 >= count,
            count == mmu.step_count(),
            i <= n,
            out@.len() == i,
            forall|j: int|
                0 <= j < n ==> slot_ok(m, mmu, e, dtb.addr, requests@[j].vaddr.addr, #[trigger] slots@[j]),
            forall|j: int|
                0 <= j < n ==> (#[trigger] slots@[j] is Walking ==> slots@[j]->Walking_1 == level),
            forall|j: int|
                #![trigger out@[j]]
                0 <= j < i ==> out@[j].tag == requests@[j].tag && out@[j].result == translate_spec(
                    m,
                    mmu,
                    e,
                    dtb.addr,
                    requests@[j].vaddr.addr,
                ),
        decreases n - i,
    {
        let result = match slots[i] {
            Slot::Done(r) => r,
            Slot::Walking(_, _) => Err(ErrorKind::InvalidPTE),
        };
        out.push(TranslationResult { tag: requests[i].tag, result });
        i = i + 1;
    }
    out
}

} // verus!
