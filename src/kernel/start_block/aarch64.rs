//! The AArch64 directory table base, found by the shape of the top table.

use vstd::prelude::*;

use super::StartBlock;
use crate::architecture::ArchitectureIdent;
use crate::endian::u64_from_bytes;
use crate::error::ErrorKind;
use crate::types::{Address, Endianess};

verus! {

/// Physical address of the first byte of the scanned memory.
pub const PHYS_BASE: u64 = 0x4000_0000;

/// Highest next-table address accepted in the first entry.
pub const MAX_MEM: u64 = 0x80_0000_0000;

/// Size of a page, and of a top table.
pub const PAGE: usize = 4096;

/// The `i`-th little-endian 64-bit entry of `page`.
pub open spec fn entry_at(page: Seq<u8>, i: int) -> u64 {
    u64_from_bytes(page.subrange(8 * i, 8 * i + 8), Endianess::LittleEndian)
}

/// Whether entry `i` of `page` maps the table itself at `addr`.
pub open spec fn is_self_ref(page: Seq<u8>, i: int, addr: u64) -> bool {
    (entry_at(page, i) ^ 0xf03u64) & (!0u64 >> 12u64) == addr
}

/// Whether entry `i` of `page` is a kernel-space mapping.
pub open spec fn is_kernel_entry(page: Seq<u8>, i: int) -> bool {
    entry_at(page, i) & 0xfffu64 == 0x703u64
}

/// Number of kernel-space entries among entries `i..512`.
pub open spec fn kernel_entries_from(page: Seq<u8>, i: int) -> nat
    decreases 512 - i,
{
    if i >= 512 {
        0
    } else {
        (if is_kernel_entry(page, i) {
            1nat
        } else {
            0nat
        }) + kernel_entries_from(page, i + 1)
    }
}

/// Whether the 4 KiB `page` at physical address `addr` looks like the top
/// table: its first entry points to a table below 512 GiB with the expected
/// low bits, its upper half maps itself, and its upper half holds at least six
/// kernel-space entries.
pub open spec fn is_dtb_page(page: Seq<u8>, addr: u64) -> bool {
    let pte = entry_at(page, 0);
    &&& pte & 0xfffu64 == 0xf03u64
    &&& pte & 0x0000_ffff_ffff_f000u64 <= MAX_MEM
    &&& exists|i: int| 256 <= i < 512 && is_self_ref(page, i, addr)
    &&& kernel_entries_from(page, 256) >= 6
}

/// Entry `i` of the page that starts at byte `start` of `mem`.
fn entry(mem: &[u8], start: usize, i: usize) -> (r: u64)
    requires
        start + PAGE <= mem@.len(),
        i < 512,
    ensures
        r == entry_at(mem@.subrange(start as int, start + PAGE), i as int),
{
    let len = mem.len();
    let b = start + 8 * i;
    assert(b + 8 <= len);
    (mem[b] as u64) | ((mem[b + 1] as u64) << 8) | ((mem[b + 2] as u64) << 16) | ((mem[b + 3] as u64)
        << 24) | ((mem[b + 4] as u64) << 32) | ((mem[b + 5] as u64) << 40) | ((mem[b + 6] as u64)
        << 48) | ((mem[b + 7] as u64) << 56)
}

/// The page at `addr`, which starts at byte `start` of `mem`, if it is the top table.
fn find_pt(addr: Address, mem: &[u8], start: usize) -> (r: Option<Address>)
    requires
        start + PAGE <= mem@.len(),
    ensures
        is_dtb_page(mem@.subrange(start as int, start + PAGE), addr.addr) ==> r == Some(addr),
        !is_dtb_page(mem@.subrange(start as int, start + PAGE), addr.addr) ==> r is None,
{
    let ghost page = mem@.subrange(start as int, start + PAGE);
    let pte = entry(mem, start, 0);
    if (pte & 0xfff) != 0xf03 || (pte & 0x0000_ffff_ffff_f000) > MAX_MEM {
        return None;
    }
    let mut self_ref = false;
    let mut kernel: u64 = 0;
    let mut i: usize = 256;
    while i < 512
        invariant
            256 <= i <= 512,
            start + PAGE <= mem@.len(),
            page == mem@.subrange(start as int, start + PAGE),
            kernel <= i - 256,
            kernel_entries_from(page, 256) == kernel + kernel_entries_from(page, i as int),
            self_ref <==> exists|j: int| 256 <= j < i && is_self_ref(page, j, addr.addr),
        decreases 512 - i,
    {
        let e = entry(mem, start, i);
        let is_ref = (e ^ 0xf03) & (!0u64 >> 12) == addr.addr;
        assert(is_ref == is_self_ref(page, i as int, addr.addr));
        if is_ref {
            self_ref = true;
        }
        if e & 0xfff == 0x703 {
            kernel = kernel + 1;
        }
        i = i + 1;
    }
    if self_ref && kernel >= 6 {
        Some(addr)
    } else {
        None
    }
}

/// Physical address of page `i` of the scanned memory.
pub open spec fn page_addr(i: int) -> int {
    PHYS_BASE + i * PAGE
}

/// Page `i` of `mem`.
pub open spec fn page_of(mem: Seq<u8>, i: int) -> Seq<u8> {
    mem.subrange(i * PAGE, i * PAGE + PAGE)
}

/// Whether page `i` of `mem` is a whole page at an address that fits in 64 bits
/// and looks like the top table.
pub open spec fn is_dtb_candidate(mem: Seq<u8>, i: int) -> bool {
    &&& 0 <= i
    &&& (i + 1) * PAGE <= mem.len()
    &&& page_addr(i) <= u64::MAX
    &&& is_dtb_page(page_of(mem, i), page_addr(i) as u64)
}

/// Scans `mem`, the physical memory from `PHYS_BASE` on, page by page, for the
/// AArch64 top table, and returns the first page found.
pub fn find(mem: &[u8]) -> (r: Result<StartBlock, ErrorKind>)
    ensures
        r is Ok ==> exists|i: int|
            #![trigger is_dtb_candidate(mem@, i)]
            is_dtb_candidate(mem@, i) && (forall|j: int|
                0 <= j < i ==> !is_dtb_candidate(mem@, j)) && r->Ok_0 == (StartBlock {
                arch: ArchitectureIdent::AArch64,
                kernel_hint: Address { addr: 0 },
                dtb: Address { addr: page_addr(i) as u64 },
            }),
        r is Err ==> r == Err::<StartBlock, ErrorKind>(ErrorKind::NotFound) && forall|i: int|
            !is_dtb_candidate(mem@, i),
{
    let total = mem.len();
    let pages = total / PAGE;
    let mut i: usize = 0;
    while i < pages
        invariant
            pages == mem@.len() / (PAGE as nat),
            total == mem@.len(),
            i <= pages,
            forall|j: int| 0 <= j < i ==> !is_dtb_candidate(mem@, j),
        decreases pages - i,
    {
        assert((i + 1) * PAGE <= mem@.len()) by (nonlinear_arith)
            requires
                i < pages,
                pages == mem@.len() / 4096,
        ;
        if i as u128 * 4096 + 0x4000_0000 > u64::MAX as u128 {
            assert forall|j: int| j >= i implies !is_dtb_candidate(mem@, j) by {
                assert(page_addr(j) >= page_addr(i as int)) by (nonlinear_arith)
                    requires
                        j >= i,
                ;
            }
            assert forall|j: int| !is_dtb_candidate(mem@, j) by {
                if 0 <= j < i {
                } else if j >= i {
                }
            }
            return Err(ErrorKind::NotFound);
        }
        let addr = Address::from_u64(PHYS_BASE + i as u64 * 4096);
        match find_pt(addr, mem, i * PAGE) {
            Some(dtb) => {
                assert(is_dtb_candidate(mem@, i as int));
                return Ok(StartBlock { arch: ArchitectureIdent::AArch64, kernel_hint: Address::null(), dtb });
            },
            None => {},
        }
        i = i + 1;
    }
    assert forall|j: int| !is_dtb_candidate(mem@, j) by {
        if j >= pages {
            assert((j + 1) * PAGE > mem@.len()) by (nonlinear_arith)
                requires
                    j >= pages,
                    pages == mem@.len() / 4096,
            ;
        }
    }
    Err(ErrorKind::NotFound)
}

} // verus!
