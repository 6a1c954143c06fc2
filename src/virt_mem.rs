//! Reads from a virtual address space: physical memory seen through a page-table walk.

use vstd::prelude::*;

use crate::architecture::{arch_layout, ArchitectureIdent};
use crate::endian::{decode_u32, decode_u64, u32_from_bytes, u64_from_bytes};
use crate::error::ErrorKind;
use crate::mmu_spec::ArchMMUSpec;
use crate::phys_mem::{phys_readable, PhysicalMemory};
use crate::translate::{lemma_walk_same_layout, translate_spec, virt_to_phys};
use crate::types::{Address, Endianess};

verus! {

/// Size of the pieces a virtual read is split into.
pub const PAGE_SIZE: u64 = 4096;

/// How the address spaces of an architecture are translated: a layout and a
/// byte order. Each address space is then named by the physical address of its
/// top table (its directory table base, DTB).
pub struct VirtualTranslate {
    pub mmu: ArchMMUSpec,
    pub endian: Endianess,
}

impl VirtualTranslate {
    pub open spec fn wf(&self) -> bool {
        self.mmu.wf()
    }

    /// The translation of `vaddr` in the address space at `dtb` over physical memory `m`.
    pub open spec fn translate(&self, m: Seq<u8>, dtb: u64, vaddr: u64) -> Result<
        crate::translate::PhysicalAddress,
        ErrorKind,
    > {
        translate_spec(m, &self.mmu, self.endian, dtb, vaddr)
    }

    /// The translation of the address spaces of `arch`.
    pub fn new(arch: ArchitectureIdent) -> (r: Result<VirtualTranslate, ErrorKind>)
        ensures
            r is Ok <==> arch.has_layout(),
            !arch.has_layout() ==> r == Err::<VirtualTranslate, ErrorKind>(ErrorKind::InvalidArchitecture),
            r is Ok ==> r->Ok_0.wf() && r->Ok_0.endian == Endianess::LittleEndian && arch_layout(
                arch,
                &r->Ok_0.mmu,
            ),
    {
        match arch.mmu_spec() {
            Some(mmu) => Ok(VirtualTranslate { mmu, endian: arch.endianess() }),
            None => Err(ErrorKind::InvalidArchitecture),
        }
    }
}

/// Bytes of a read of `remaining` bytes at `addr` that lie in the page of `addr`.
pub open spec fn chunk_len(addr: u64, remaining: nat) -> nat {
    let room = (PAGE_SIZE - addr % PAGE_SIZE) as nat;
    if remaining < room {
        remaining
    } else {
        room
    }
}

/// The `n` bytes at virtual address `addr`, all in one page, if the page
/// translates and its bytes can be read.
pub open spec fn chunk_spec(m: Seq<u8>, vat: &VirtualTranslate, dtb: u64, addr: u64, n: nat) -> Option<
    Seq<u8>,
> {
    match vat.translate(m, dtb, addr) {
        Ok(pa) => if phys_readable(m, pa.address.addr as int, n as int) {
            Some(m.subrange(pa.address.addr as int, pa.address.addr + n))
        } else {
            None
        },
        Err(_) => None,
    }
}

/// The bytes of a virtual read of `len` bytes at `addr`, page by page; the
/// bytes of a page that cannot be read are zero.
pub open spec fn virt_read_spec(m: Seq<u8>, vat: &VirtualTranslate, dtb: u64, addr: u64, len: nat) -> Seq<
    u8,
>
    decreases len,
{
    if len == 0 || addr + len > u64::MAX + 1 {
        Seq::empty()
    } else {
        let n = chunk_len(addr, len);
        let head = match chunk_spec(m, vat, dtb, addr, n) {
            Some(b) => b,
            None => Seq::new(n, |i: int| 0u8),
        };
        head + virt_read_spec(m, vat, dtb, (addr + n) as u64, (len - n) as nat)
    }
}

/// The pieces `(address, length)` of a virtual read that could not be read, in order.
pub open spec fn virt_failed_spec(
    m: Seq<u8>,
    vat: &VirtualTranslate,
    dtb: u64,
    addr: u64,
    len: nat,
) -> Seq<(u64, u64)>
    decreases len,
{
    if len == 0 || addr + len > u64::MAX + 1 {
        Seq::empty()
    } else {
        let n = chunk_len(addr, len);
        let head = match chunk_spec(m, vat, dtb, addr, n) {
            Some(b) => Seq::empty(),
            None => seq![(addr, n as u64)],
        };
        head + virt_failed_spec(m, vat, dtb, (addr + n) as u64, (len - n) as nat)
    }
}

/// The bytes of a read that some pages failed: those pages read as zero.
#[derive(Debug)]
pub struct PartialRead {
    pub data: Vec<u8>,
    /// The pieces `(address, length)` that could not be read.
    pub unreadable: Vec<(u64, u64)>,
}

/// A virtual read of `len` bytes always gives `len` bytes: pages that fail
/// are filled with zeros.
pub proof fn lemma_virt_read_len(m: Seq<u8>, vat: &VirtualTranslate, dtb: u64, addr: u64, len: nat)
    requires
        addr + len <= u64::MAX + 1,
    ensures
        virt_read_spec(m, vat, dtb, addr, len).len() == len,
    decreases len,
{
    if len > 0 {
        let n = chunk_len(addr, len);
        lemma_virt_read_len(m, vat, dtb, (addr + n) as u64, (len - n) as nat);
    }
}

/// Reads `len` bytes at `addr`, splitting at page boundaries. Every page that
/// does not translate or cannot be read is filled with zeros and reported.
pub fn virt_read_raw<T: PhysicalMemory>(
    mem: &T,
    vat: &VirtualTranslate,
    dtb: Address,
    addr: Address,
    len: usize,
) -> (r:
    Result<Vec<u8>, PartialRead>)
    requires
        vat.wf(),
        addr.addr + len <= u64::MAX + 1,
    ensures
        virt_failed_spec(mem.phys_view(), vat, dtb.addr, addr.addr, len as nat).len() == 0 <==> r is Ok,
        r is Ok ==> r->Ok_0@ == virt_read_spec(mem.phys_view(), vat, dtb.addr, addr.addr, len as nat),
        r is Err ==> r->Err_0.data@ == virt_read_spec(mem.phys_view(), vat, dtb.addr, addr.addr, len as nat)
            && r->Err_0.unreadable@ == virt_failed_spec(
            mem.phys_view(),
            vat,
            dtb.addr,
            addr.addr,
            len as nat,
        ),
        virt_read_spec(mem.phys_view(), vat, dtb.addr, addr.addr, len as nat).len() == len,
{
    let ghost m = mem.phys_view();
    let mut data: Vec<u8> = Vec::new();
    let mut failed: Vec<(u64, u64)> = Vec::new();
    let mut cur: u64 = addr.addr;
    let mut rem: usize = len;
    proof {
        lemma_virt_read_len(m, vat, dtb.addr, addr.addr, len as nat);
    }
    while rem > 0
        invariant
            vat.wf(),
            m == mem.phys_view(),
            cur + rem <= u64::MAX + 1,
            data@ + virt_read_spec(m, vat, dtb.addr, cur, rem as nat) == virt_read_spec(
                m,
                vat,
                dtb.addr,
                addr.addr,
                len as nat,
            ),
            failed@ + virt_failed_spec(m, vat, dtb.addr, cur, rem as nat) == virt_failed_spec(
                m,
                vat,
                dtb.addr,
                addr.addr,
                len as nat,
            ),
        decreases rem,
    {
        let room = PAGE_SIZE - cur % PAGE_SIZE;
        let n: usize = if (rem as u64) < room {
            rem
        } else {
            room as usize
        };
        let ghost old_data = data@;
        let ghost old_failed = failed@;
        let ghost head_opt = chunk_spec(m, vat, dtb.addr, cur, n as nat);
        let mut got = false;
        match virt_to_phys(mem, &vat.mmu, vat.endian, dtb, Address::from_u64(cur)) {
            Ok(pa) => {
                match mem.phys_read_raw(pa.address.addr, n) {
                    Ok(bytes) => {
                        let mut bytes = bytes;
                        data.append(&mut bytes);
                        got = true;
                    },
                    Err(_) => {},
                }
            },
            Err(_) => {},
        }
        if !got {
            let mut zeros: Vec<u8> = vec![0u8; n];
            assert(zeros@ =~= Seq::new(n as nat, |i: int| 0u8));
            data.append(&mut zeros);
            failed.push((cur, n as u64));
        }
        proof {
            let head = match head_opt {
                Some(b) => b,
                None => Seq::new(n as nat, |i: int| 0u8),
            };
            let fhead: Seq<(u64, u64)> = match head_opt {
                Some(b) => Seq::empty(),
                None => seq![(cur, n as u64)],
            };
            assert(data@ =~= old_data + head);
            assert(failed@ =~= old_failed + fhead);
            let rest = virt_read_spec(m, vat, dtb.addr, (cur + n) as u64, (rem - n) as nat);
            let frest = virt_failed_spec(m, vat, dtb.addr, (cur + n) as u64, (rem - n) as nat);
            assert(virt_read_spec(m, vat, dtb.addr, cur, rem as nat) == head + rest);
            assert(virt_failed_spec(m, vat, dtb.addr, cur, rem as nat) == fhead + frest);
            assert(old_data + (head + rest) =~= (old_data + head) + rest);
            assert(old_failed + (fhead + frest) =~= (old_failed + fhead) + frest);
        }
        cur = (cur as u128 + n as u128) as u64;
        rem = rem - n;
    }
    assert(data@ =~= virt_read_spec(m, vat, dtb.addr, addr.addr, len as nat));
    assert(failed@ =~= virt_failed_spec(m, vat, dtb.addr, addr.addr, len as nat));
    if failed.len() == 0 {
        Ok(data)
    } else {
        Err(PartialRead { data, unreadable: failed })
    }
}


impl VirtualTranslate {
    /// Whether `other` translates as this one does.
    pub open spec fn same_as(&self, other: &VirtualTranslate) -> bool {
        self.mmu.same_layout(&other.mmu) && self.endian == other.endian
    }
}

/// Reads through two translations that agree give the same bytes and fail on the same pieces.
pub proof fn lemma_virt_read_same_translation(
    m: Seq<u8>,
    v1: &VirtualTranslate,
    v2: &VirtualTranslate,
    dtb: u64,
    addr: u64,
    len: nat,
)
    requires
        v1.same_as(v2),
    ensures
        virt_read_spec(m, v1, dtb, addr, len) == virt_read_spec(m, v2, dtb, addr, len),
        virt_failed_spec(m, v1, dtb, addr, len) == virt_failed_spec(m, v2, dtb, addr, len),
    decreases len,
{
    if len > 0 && addr + len <= u64::MAX + 1 {
        let n = chunk_len(addr, len);
        lemma_walk_same_layout(
            m,
            &v1.mmu,
            &v2.mmu,
            v1.endian,
            v1.mmu.pte_addr_mask_spec(dtb, 0),
            addr,
            0,
        );
        assert(chunk_spec(m, v1, dtb, addr, n) == chunk_spec(m, v2, dtb, addr, n));
        lemma_virt_read_same_translation(m, v1, v2, dtb, (addr + n) as u64, (len - n) as nat);
    }
}

/// Pointer reads through two translations that agree agree.
pub proof fn lemma_read_addr_same_translation(
    m: Seq<u8>,
    v1: &VirtualTranslate,
    v2: &VirtualTranslate,
    dtb: u64,
    bits: u8,
    addr: u64,
)
    requires
        v1.same_as(v2),
    ensures
        read_addr_spec(m, v1, dtb, bits, addr) == read_addr_spec(m, v2, dtb, bits, addr),
{
    lemma_virt_read_same_translation(m, v1, v2, dtb, addr, 8);
    lemma_virt_read_same_translation(m, v1, v2, dtb, addr, 4);
}

/// Whether every page of a read of `len` bytes at `addr` could be read.
pub open spec fn virt_ok(m: Seq<u8>, vat: &VirtualTranslate, dtb: u64, addr: u64, len: nat) -> bool {
    virt_failed_spec(m, vat, dtb, addr, len).len() == 0
}

/// The 64-bit value at `addr`.
pub open spec fn read_u64_spec(m: Seq<u8>, vat: &VirtualTranslate, dtb: u64, addr: u64) -> Result<
    u64,
    ErrorKind,
> {
    if addr + 8 > u64::MAX + 1 {
        Err(ErrorKind::OutOfBounds)
    } else if virt_ok(m, vat, dtb, addr, 8) {
        Ok(u64_from_bytes(virt_read_spec(m, vat, dtb, addr, 8), vat.endian))
    } else {
        Err(ErrorKind::PartialData)
    }
}

/// The 32-bit value at `addr`.
pub open spec fn read_u32_spec(m: Seq<u8>, vat: &VirtualTranslate, dtb: u64, addr: u64) -> Result<
    u32,
    ErrorKind,
> {
    if addr + 4 > u64::MAX + 1 {
        Err(ErrorKind::OutOfBounds)
    } else if virt_ok(m, vat, dtb, addr, 4) {
        Ok(u32_from_bytes(virt_read_spec(m, vat, dtb, addr, 4), vat.endian))
    } else {
        Err(ErrorKind::PartialData)
    }
}

/// The pointer of an architecture of `bits` bits at `addr`.
pub open spec fn read_addr_spec(
    m: Seq<u8>,
    vat: &VirtualTranslate,
    dtb: u64,
    bits: u8,
    addr: u64,
) -> Result<u64, ErrorKind> {
    if bits == 64 {
        read_u64_spec(m, vat, dtb, addr)
    } else if bits == 32 {
        match read_u32_spec(m, vat, dtb, addr) {
            Ok(v) => Ok(v as u64),
            Err(e) => Err(e),
        }
    } else {
        Err(ErrorKind::InvalidArchitecture)
    }
}

/// Index of the first NUL byte of `b` at or after `i`.
pub open spec fn first_nul_from(b: Seq<u8>, i: nat) -> Option<nat>
    decreases b.len() - i,
{
    if i >= b.len() {
        None
    } else if b[i as int] == 0 {
        Some(i)
    } else {
        first_nul_from(b, i + 1)
    }
}

/// The C string at the start of `b`: the bytes before the first NUL, or
/// `InvalidString` where `b` has none.
pub open spec fn cstr_spec(b: Seq<u8>) -> Result<Seq<u8>, ErrorKind> {
    match first_nul_from(b, 0) {
        Some(k) => Ok(b.subrange(0, k as int)),
        None => Err(ErrorKind::InvalidString),
    }
}

/// The C string of at most `max_len` bytes, terminator included, at `addr`.
pub open spec fn read_cstr_spec(
    m: Seq<u8>,
    vat: &VirtualTranslate,
    dtb: u64,
    addr: u64,
    max_len: nat,
) -> Result<Seq<u8>, ErrorKind> {
    if addr + max_len > u64::MAX + 1 {
        Err(ErrorKind::OutOfBounds)
    } else {
        let p = readable_prefix(m, vat, dtb, addr, max_len);
        match cstr_spec(virt_read_spec(m, vat, dtb, addr, max_len).subrange(0, p)) {
            Ok(s) => Ok(s),
            Err(_) => if virt_ok(m, vat, dtb, addr, max_len) {
                Err(ErrorKind::InvalidString)
            } else {
                Err(ErrorKind::PartialData)
            },
        }
    }
}

/// How many bytes of a read of `len` bytes at `addr` come before the first
/// piece that could not be read.
pub open spec fn readable_prefix(m: Seq<u8>, vat: &VirtualTranslate, dtb: u64, addr: u64, len: nat) -> int {
    let f = virt_failed_spec(m, vat, dtb, addr, len);
    if f.len() == 0 {
        len as int
    } else {
        f[0].0 - addr
    }
}

/// The pieces that a read could not read lie within the read.
pub proof fn lemma_failed_within(m: Seq<u8>, vat: &VirtualTranslate, dtb: u64, addr: u64, len: nat)
    requires
        addr + len <= u64::MAX + 1,
    ensures
        forall|i: int|
            0 <= i < virt_failed_spec(m, vat, dtb, addr, len).len() ==> addr <= (
            #[trigger] virt_failed_spec(m, vat, dtb, addr, len)[i]).0 && virt_failed_spec(
                m,
                vat,
                dtb,
                addr,
                len,
            )[i].0 + virt_failed_spec(m, vat, dtb, addr, len)[i].1 <= addr + len,
        0 <= readable_prefix(m, vat, dtb, addr, len) <= len,
    decreases len,
{
    if len > 0 {
        let n = chunk_len(addr, len);
        lemma_failed_within(m, vat, dtb, (addr + n) as u64, (len - n) as nat);
    }
}

/// Where the page of the first byte reads, the read begins with that page's
/// bytes, and no piece before it failed.
pub proof fn lemma_first_chunk_readable(m: Seq<u8>, vat: &VirtualTranslate, dtb: u64, addr: u64, len: nat)
    requires
        len >= 1,
        addr + len <= u64::MAX + 1,
        chunk_spec(m, vat, dtb, addr, chunk_len(addr, len)) is Some,
    ensures
        readable_prefix(m, vat, dtb, addr, len) >= 1,
        virt_read_spec(m, vat, dtb, addr, len)[0] == chunk_spec(
            m,
            vat,
            dtb,
            addr,
            chunk_len(addr, len),
        )->Some_0[0],
{
    let n = chunk_len(addr, len);
    lemma_failed_within(m, vat, dtb, (addr + n) as u64, (len - n) as nat);
    let rest = virt_failed_spec(m, vat, dtb, (addr + n) as u64, (len - n) as nat);
    assert(virt_failed_spec(m, vat, dtb, addr, len) =~= Seq::<(u64, u64)>::empty() + rest);
    if rest.len() > 0 {
        assert(addr + n <= rest[0].0);
    }
}

/// A C string whose first byte reads and is NUL is empty, whatever the bytes
/// after it, readable or not.
pub proof fn lemma_cstr_first_byte_nul(m: Seq<u8>, vat: &VirtualTranslate, dtb: u64, addr: u64, max_len: nat)
    requires
        max_len >= 1,
        addr + max_len <= u64::MAX + 1,
        chunk_spec(m, vat, dtb, addr, chunk_len(addr, max_len)) is Some,
        chunk_spec(m, vat, dtb, addr, chunk_len(addr, max_len))->Some_0[0] == 0,
    ensures
        read_cstr_spec(m, vat, dtb, addr, max_len) == Ok::<Seq<u8>, ErrorKind>(Seq::<u8>::empty()),
{
    lemma_first_chunk_readable(m, vat, dtb, addr, max_len);
    lemma_failed_within(m, vat, dtb, addr, max_len);
    lemma_virt_read_len(m, vat, dtb, addr, max_len);
    let p = readable_prefix(m, vat, dtb, addr, max_len);
    let b = virt_read_spec(m, vat, dtb, addr, max_len).subrange(0, p);
    assert(b[0] == 0);
    lemma_cstr_leading_nul(b);
}

/// A read of two pages from a page boundary whose first page reads and whose
/// second does not translate gives the first page's bytes, then 4096 zeros,
/// and reports the second page as the one piece that failed.
pub proof fn lemma_two_page_partial(m: Seq<u8>, vat: &VirtualTranslate, dtb: u64, v: u64)
    requires
        v % PAGE_SIZE == 0,
        v + 2 * PAGE_SIZE <= u64::MAX + 1,
        chunk_spec(m, vat, dtb, v, PAGE_SIZE as nat) is Some,
        vat.translate(m, dtb, (v + PAGE_SIZE) as u64) is Err,
    ensures
        virt_read_spec(m, vat, dtb, v, 2 * PAGE_SIZE as nat) == chunk_spec(
            m,
            vat,
            dtb,
            v,
            PAGE_SIZE as nat,
        )->Some_0 + Seq::new(PAGE_SIZE as nat, |i: int| 0u8),
        virt_failed_spec(m, vat, dtb, v, 2 * PAGE_SIZE as nat) == seq![
            ((v + PAGE_SIZE) as u64, PAGE_SIZE),
        ],
{
    let w = (v + PAGE_SIZE) as u64;
    assert(w % PAGE_SIZE == 0);
    assert(chunk_len(v, 2 * PAGE_SIZE as nat) == PAGE_SIZE);
    assert(chunk_len(w, PAGE_SIZE as nat) == PAGE_SIZE);
    assert(chunk_spec(m, vat, dtb, w, PAGE_SIZE as nat) is None);
    assert(virt_read_spec(m, vat, dtb, (w + PAGE_SIZE) as u64, 0) =~= Seq::<u8>::empty());
    assert(virt_failed_spec(m, vat, dtb, (w + PAGE_SIZE) as u64, 0) =~= Seq::<(u64, u64)>::empty());
    assert(virt_read_spec(m, vat, dtb, w, PAGE_SIZE as nat) =~= Seq::new(PAGE_SIZE as nat, |i: int| 0u8));
    assert(virt_failed_spec(m, vat, dtb, w, PAGE_SIZE as nat) =~= seq![(w, PAGE_SIZE)]);
    assert(virt_failed_spec(m, vat, dtb, v, 2 * PAGE_SIZE as nat) =~= seq![(w, PAGE_SIZE)]);
}

/// The bytes of a read that failed in part, up to the first piece that failed.
pub(crate) fn readable_part(
    Ghost(m): Ghost<Seq<u8>>,
    vat: &VirtualTranslate,
    dtb: Address,
    addr: Address,
    len: usize,
    p: PartialRead,
) -> (r: Vec<u8>)
    requires
        addr.addr + len <= u64::MAX + 1,
        p.data@ == virt_read_spec(m, vat, dtb.addr, addr.addr, len as nat),
        p.unreadable@ == virt_failed_spec(m, vat, dtb.addr, addr.addr, len as nat),
        p.unreadable@.len() > 0,
        virt_read_spec(m, vat, dtb.addr, addr.addr, len as nat).len() == len,
    ensures
        r@ == virt_read_spec(m, vat, dtb.addr, addr.addr, len as nat).subrange(
            0,
            readable_prefix(m, vat, dtb.addr, addr.addr, len as nat),
        ),
{
    proof {
        lemma_failed_within(m, vat, dtb.addr, addr.addr, len as nat);
    }
    let first = p.unreadable[0].0 - addr.addr;
    let mut data = p.data;
    data.truncate(first as usize);
    data
}

/// The bytes of `b` before its first NUL.
pub(crate) fn cstr_of(b: &Vec<u8>) -> (r: Result<Vec<u8>, ErrorKind>)
    ensures
        r is Ok <==> cstr_spec(b@) is Ok,
        r is Ok ==> r->Ok_0@ == cstr_spec(b@)->Ok_0,
        r is Err ==> r == Err::<Vec<u8>, ErrorKind>(ErrorKind::InvalidString),
{
    let mut i: usize = 0;
    while i < b.len()
        invariant
            i <= b@.len(),
            first_nul_from(b@, 0) == first_nul_from(b@, i as nat),
        decreases b@.len() - i,
    {
        if b[i] == 0 {
            let mut out = b.clone();
            out.truncate(i);
            assert(out@ =~= b@.subrange(0, i as int));
            return Ok(out);
        }
        i = i + 1;
    }
    Err(ErrorKind::InvalidString)
}

/// Reads the 64-bit value at `addr`.
pub fn virt_read_u64<T: PhysicalMemory>(mem: &T, vat: &VirtualTranslate, dtb: Address, addr: Address) -> (r:
    Result<u64, ErrorKind>)
    requires
        vat.wf(),
    ensures
        r == read_u64_spec(mem.phys_view(), vat, dtb.addr, addr.addr),
{
    if addr.addr > u64::MAX - 8 + 1 {
        return Err(ErrorKind::OutOfBounds);
    }
    match virt_read_raw(mem, vat, dtb, addr, 8) {
        Ok(b) => Ok(decode_u64(b.as_slice(), vat.endian)),
        Err(_) => Err(ErrorKind::PartialData),
    }
}

/// Reads the 32-bit value at `addr`.
pub fn virt_read_u32<T: PhysicalMemory>(mem: &T, vat: &VirtualTranslate, dtb: Address, addr: Address) -> (r:
    Result<u32, ErrorKind>)
    requires
        vat.wf(),
    ensures
        r == read_u32_spec(mem.phys_view(), vat, dtb.addr, addr.addr),
{
    if addr.addr > u64::MAX - 4 + 1 {
        return Err(ErrorKind::OutOfBounds);
    }
    match virt_read_raw(mem, vat, dtb, addr, 4) {
        Ok(b) => Ok(decode_u32(b.as_slice(), vat.endian)),
        Err(_) => Err(ErrorKind::PartialData),
    }
}

/// Reads a pointer of the width of `arch` at `addr`: eight bytes for a 64-bit
/// architecture, four for a 32-bit one.
pub fn virt_read_addr_arch<T: PhysicalMemory>(
    mem: &T,
    vat: &VirtualTranslate,
    dtb: Address,
    arch: ArchitectureIdent,
    addr: Address,
) -> (r: Result<Address, ErrorKind>)
    requires
        vat.wf(),
    ensures
        r is Ok <==> read_addr_spec(mem.phys_view(), vat, dtb.addr, arch.bits_spec(), addr.addr) is Ok,
        r is Ok ==> r->Ok_0.addr == read_addr_spec(
            mem.phys_view(),
            vat,
            dtb.addr,
            arch.bits_spec(),
            addr.addr,
        )->Ok_0,
        r is Err ==> r->Err_0 == read_addr_spec(
            mem.phys_view(),
            vat,
            dtb.addr,
            arch.bits_spec(),
            addr.addr,
        )->Err_0,
{
    let bits = arch.bits();
    if bits == 64 {
        match virt_read_u64(mem, vat, dtb, addr) {
            Ok(v) => Ok(Address::from_u64(v)),
            Err(e) => Err(e),
        }
    } else if bits == 32 {
        match virt_read_u32(mem, vat, dtb, addr) {
            Ok(v) => Ok(Address::from_u64(v as u64)),
            Err(e) => Err(e),
        }
    } else {
        Err(ErrorKind::InvalidArchitecture)
    }
}

/// Reads the C string at `addr` from at most `max_len` bytes, terminator
/// included. A string that starts with NUL is empty; one without a NUL in
/// those bytes is an `InvalidString`. Where a later page does not read, a
/// NUL before it still ends the string; without one the read is `PartialData`.
pub fn virt_read_cstr<T: PhysicalMemory>(
    mem: &T,
    vat: &VirtualTranslate,
    dtb: Address,
    addr: Address,
    max_len: usize,
) -> (r: Result<Vec<u8>, ErrorKind>)
    requires
        vat.wf(),
    ensures
        r is Ok <==> read_cstr_spec(mem.phys_view(), vat, dtb.addr, addr.addr, max_len as nat) is Ok,
        r is Ok ==> r->Ok_0@ == read_cstr_spec(
            mem.phys_view(),
            vat,
            dtb.addr,
            addr.addr,
            max_len as nat,
        )->Ok_0,
        r is Err ==> r->Err_0 == read_cstr_spec(
            mem.phys_view(),
            vat,
            dtb.addr,
            addr.addr,
            max_len as nat,
        )->Err_0,
{
    if addr.addr as u128 + max_len as u128 > u64::MAX as u128 + 1 {
        return Err(ErrorKind::OutOfBounds);
    }
    match virt_read_raw(mem, vat, dtb, addr, max_len) {
        Ok(b) => {
            assert(b@.subrange(0, max_len as int) =~= b@);
            cstr_of(&b)
        },
        Err(p) => {
            let part = readable_part(Ghost(mem.phys_view()), vat, dtb, addr, max_len, p);
            match cstr_of(&part) {
                Ok(s) => Ok(s),
                Err(_) => Err(ErrorKind::PartialData),
            }
        },
    }
}

/// A string that starts with NUL reads as the empty string.
pub proof fn lemma_cstr_leading_nul(b: Seq<u8>)
    requires
        b.len() >= 1,
        b[0] == 0,
    ensures
        cstr_spec(b) == Ok::<Seq<u8>, ErrorKind>(Seq::<u8>::empty()),
{
    assert(b.subrange(0, 0) =~= Seq::<u8>::empty());
}

/// A virtual address space: physical memory, the architecture of its
/// pointers, how it is translated and its directory table base.
pub struct VirtualDMA<T> {
    pub phys_mem: T,
    pub arch: ArchitectureIdent,
    pub vat: VirtualTranslate,
    pub dtb: Address,
}

impl<T: PhysicalMemory> VirtualDMA<T> {
    pub open spec fn wf(&self) -> bool {
        self.vat.wf()
    }

    /// The physical memory that this space reads.
    pub open spec fn mem(&self) -> Seq<u8> {
        self.phys_mem.phys_view()
    }

    /// The address space of `arch` at `dtb`, translated by `vat`.
    pub fn with_vat(phys_mem: T, arch: ArchitectureIdent, vat: VirtualTranslate, dtb: Address) -> (r:
        VirtualDMA<T>)
        ensures
            r.phys_mem == phys_mem,
            r.arch == arch,
            r.vat == vat,
            r.dtb == dtb,
    {
        VirtualDMA { phys_mem, arch, vat, dtb }
    }

    /// Gives the physical memory back.
    pub fn destroy(self) -> (r: T)
        ensures
            r == self.phys_mem,
    {
        self.phys_mem
    }

    pub fn virt_read_raw(&self, addr: Address, len: usize) -> (r: Result<Vec<u8>, PartialRead>)
        requires
            self.wf(),
            addr.addr + len <= u64::MAX + 1,
        ensures
            virt_ok(self.mem(), &self.vat, self.dtb.addr, addr.addr, len as nat) <==> r is Ok,
            r is Ok ==> r->Ok_0@ == virt_read_spec(
                self.mem(),
                &self.vat,
                self.dtb.addr,
                addr.addr,
                len as nat,
            ),
            r is Err ==> r->Err_0.data@ == virt_read_spec(
                self.mem(),
                &self.vat,
                self.dtb.addr,
                addr.addr,
                len as nat,
            ) && r->Err_0.unreadable@ == virt_failed_spec(
                self.mem(),
                &self.vat,
                self.dtb.addr,
                addr.addr,
                len as nat,
            ),
            virt_read_spec(self.mem(), &self.vat, self.dtb.addr, addr.addr, len as nat).len() == len,
    {
        virt_read_raw(&self.phys_mem, &self.vat, self.dtb, addr, len)
    }

    pub fn virt_read_u32(&self, addr: Address) -> (r: Result<u32, ErrorKind>)
        requires
            self.wf(),
        ensures
            r == read_u32_spec(self.mem(), &self.vat, self.dtb.addr, addr.addr),
    {
        virt_read_u32(&self.phys_mem, &self.vat, self.dtb, addr)
    }

    pub fn virt_read_u64(&self, addr: Address) -> (r: Result<u64, ErrorKind>)
        requires
            self.wf(),
        ensures
            r == read_u64_spec(self.mem(), &self.vat, self.dtb.addr, addr.addr),
    {
        virt_read_u64(&self.phys_mem, &self.vat, self.dtb, addr)
    }

    pub fn virt_read_addr_arch(&self, arch: ArchitectureIdent, addr: Address) -> (r: Result<
        Address,
        ErrorKind,
    >)
        requires
            self.wf(),
        ensures
            r is Ok <==> read_addr_spec(
                self.mem(),
                &self.vat,
                self.dtb.addr,
                arch.bits_spec(),
                addr.addr,
            ) is Ok,
            r is Ok ==> r->Ok_0.addr == read_addr_spec(
                self.mem(),
                &self.vat,
                self.dtb.addr,
                arch.bits_spec(),
                addr.addr,
            )->Ok_0,
            r is Err ==> r->Err_0 == read_addr_spec(
                self.mem(),
                &self.vat,
                self.dtb.addr,
                arch.bits_spec(),
                addr.addr,
            )->Err_0,
    {
        virt_read_addr_arch(&self.phys_mem, &self.vat, self.dtb, arch, addr)
    }

    pub fn virt_read_cstr(&self, addr: Address, max_len: usize) -> (r: Result<Vec<u8>, ErrorKind>)
        requires
            self.wf(),
        ensures
            r is Ok <==> read_cstr_spec(
                self.mem(),
                &self.vat,
                self.dtb.addr,
                addr.addr,
                max_len as nat,
            ) is Ok,
            r is Ok ==> r->Ok_0@ == read_cstr_spec(
                self.mem(),
                &self.vat,
                self.dtb.addr,
                addr.addr,
                max_len as nat,
            )->Ok_0,
            r is Err ==> r->Err_0 == read_cstr_spec(
                self.mem(),
                &self.vat,
                self.dtb.addr,
                addr.addr,
                max_len as nat,
            )->Err_0,
    {
        virt_read_cstr(&self.phys_mem, &self.vat, self.dtb, addr, max_len)
    }
}

} // verus!
