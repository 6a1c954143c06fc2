//! The x64 directory table base, found in the processor state block that the
//! boot loader leaves in the low stub.

use vstd::prelude::*;

use super::StartBlock;
use crate::architecture::ArchitectureIdent;
use crate::endian::u64_from_bytes;
use crate::error::ErrorKind;
use crate::types::{Address, Endianess};

verus! {

/// Size of a page of the low stub.
pub const PAGE: usize = 4096;

/// The little-endian 64-bit value at byte `off` of page `i` of `stub`.
pub open spec fn field_at(stub: Seq<u8>, i: int, off: int) -> u64 {
    u64_from_bytes(stub.subrange(i * PAGE + off, i * PAGE + off + 8), Endianess::LittleEndian)
}

/// Whether page `i` of `stub` holds the processor state block: the jump
/// that starts it, a kernel entry in the upper half, and a page-aligned top
/// table below 1 TiB.
pub open spec fn is_lowstub_page(stub: Seq<u8>, i: int) -> bool {
    &&& 1 <= i
    &&& (i + 1) * PAGE <= stub.len()
    &&& field_at(stub, i, 0) & 0xffff_ffff_ffff_00ffu64 == 0x0000_0001_0006_00e9u64
    &&& field_at(stub, i, 0x70) & 0xffff_f800_0000_0003u64 == 0xffff_f800_0000_0000u64
    &&& field_at(stub, i, 0xa0) & 0xffff_ff00_0000_0fffu64 == 0
}

/// The value at byte `off` of the page that starts at byte `start` of `stub`.
fn field(stub: &[u8], start: usize, off: usize) -> (r: u64)
    requires
        start + PAGE <= stub@.len(),
        off + 8 <= PAGE,
    ensures
        r == u64_from_bytes(stub@.subrange(start + off, start + off + 8), Endianess::LittleEndian),
{
    let len = stub.len();
    let b = start + off;
    assert(b + 8 <= len);
    (stub[b] as u64) | ((stub[b + 1] as u64) << 8) | ((stub[b + 2] as u64) << 16) | ((stub[b + 3] as u64)
        << 24) | ((stub[b + 4] as u64) << 32) | ((stub[b + 5] as u64) << 40) | ((stub[b + 6] as u64)
        << 48) | ((stub[b + 7] as u64) << 56)
}

/// Scans the low stub `stub` (physical memory from address 0 on) page by
/// page, the first page skipped, for the processor state block, and returns
/// the kernel entry and top table of the first one found.
pub fn find_lowstub(stub: &[u8]) -> (r: Result<StartBlock, ErrorKind>)
    ensures
        r is Ok ==> exists|i: int|
            #![trigger is_lowstub_page(stub@, i)]
            is_lowstub_page(stub@, i) && (forall|j: int| 0 <= j < i ==> !is_lowstub_page(stub@, j))
                && r->Ok_0 == (StartBlock {
                arch: ArchitectureIdent::X86(64, false),
                kernel_hint: Address { addr: field_at(stub@, i, 0x70) },
                dtb: Address { addr: field_at(stub@, i, 0xa0) },
            }),
        r is Err ==> r == Err::<StartBlock, ErrorKind>(ErrorKind::NotFound) && forall|i: int|
            !is_lowstub_page(stub@, i),
{
    let total = stub.len();
    let pages = total / PAGE;
    let mut i: usize = 1;
    while i < pages
        invariant
            pages == stub@.len() / (PAGE as nat),
            total == stub@.len(),
            1 <= i,
            i <= pages || pages == 0,
            forall|j: int| 0 <= j < i ==> !is_lowstub_page(stub@, j),
        decreases pages - i,
    {
        assert((i + 1) * PAGE <= stub@.len()) by (nonlinear_arith)
            requires
                i < pages,
                pages == stub@.len() / 4096,
        ;
        let start = i * PAGE;
        let head = field(stub, start, 0);
        let entry = field(stub, start, 0x70);
        let dtb = field(stub, start, 0xa0);
        assert(head == field_at(stub@, i as int, 0));
        assert(entry == field_at(stub@, i as int, 0x70));
        assert(dtb == field_at(stub@, i as int, 0xa0));
        if head & 0xffff_ffff_ffff_00ff == 0x0000_0001_0006_00e9 && entry & 0xffff_f800_0000_0003
            == 0xffff_f800_0000_0000 && dtb & 0xffff_ff00_0000_0fff == 0 {
            assert(is_lowstub_page(stub@, i as int));
            return Ok(
                StartBlock {
                    arch: ArchitectureIdent::X86(64, false),
                    kernel_hint: Address::from_u64(entry),
                    dtb: Address::from_u64(dtb),
                },
            );
        }
        i = i + 1;
    }
    assert forall|j: int| !is_lowstub_page(stub@, j) by {
        if j >= i && j >= 1 {
            assert((j + 1) * PAGE > stub@.len()) by (nonlinear_arith)
                requires
                    j >= pages,
                    pages == stub@.len() / 4096,
            ;
        }
    }
    Err(ErrorKind::NotFound)
}

} // verus!
