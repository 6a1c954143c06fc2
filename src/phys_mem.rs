//! Physical memory of the target.

use vstd::prelude::*;

use crate::error::ErrorKind;

verus! {

/// Whether `len` bytes from `addr` lie within `m`.
pub open spec fn phys_readable(m: Seq<u8>, addr: int, len: int) -> bool {
    0 <= addr && 0 <= len && addr + len <= m.len()
}

/// A source of the target's physical memory.
pub trait PhysicalMemory {
    /// The physical memory as this source presents it: the byte at physical
    /// address `a` is at index `a`; there is nothing past the end.
    spec fn phys_view(&self) -> Seq<u8>;

    /// Reads `len` bytes from physical address `addr`.
    fn phys_read_raw(&self, addr: u64, len: usize) -> (r: Result<Vec<u8>, ErrorKind>)
        ensures
            phys_readable(self.phys_view(), addr as int, len as int) ==> r is Ok && r->Ok_0@
                == self.phys_view().subrange(addr as int, addr + len),
            !phys_readable(self.phys_view(), addr as int, len as int) ==> r == Err::<
                Vec<u8>,
                ErrorKind,
            >(ErrorKind::OutOfBounds),
    ;
}

/// Reads each range `(address, length)` on its own: one result per range,
/// in the order of the ranges; a range that fails does not affect the others.
pub fn phys_read_batch<T: PhysicalMemory>(mem: &T, ranges: &Vec<(u64, usize)>) -> (r: Vec<
    Result<Vec<u8>, ErrorKind>,
>)
    ensures
        r@.len() == ranges@.len(),
        forall|i: int|
            #![trigger r@[i]]
            0 <= i < r@.len() ==> {
                let (addr, len) = ranges@[i];
                &&& phys_readable(mem.phys_view(), addr as int, len as int) ==> r@[i] is Ok
                    && r@[i]->Ok_0@ == mem.phys_view().subrange(addr as int, addr + len)
                &&& !phys_readable(mem.phys_view(), addr as int, len as int) ==> r@[i] == Err::<
                    Vec<u8>,
                    ErrorKind,
                >(ErrorKind::OutOfBounds)
            },
{
    let mut out: Vec<Result<Vec<u8>, ErrorKind>> = Vec::with_capacity(ranges.len());
    let mut i: usize = 0;
    while i < ranges.len()
        invariant
            i <= ranges@.len(),
            out@.len() == i,
            forall|j: int|
                #![trigger out@[j]]
                0 <= j < i ==> {
                    let (addr, len) = ranges@[j];
                    &&& phys_readable(mem.phys_view(), addr as int, len as int) ==> out@[j] is Ok
                        && out@[j]->Ok_0@ == mem.phys_view().subrange(addr as int, addr + len)
                    &&& !phys_readable(mem.phys_view(), addr as int, len as int) ==> out@[j]
                        == Err::<Vec<u8>, ErrorKind>(ErrorKind::OutOfBounds)
                },
        decreases ranges@.len() - i,
    {
        let (addr, len) = ranges[i];
        out.push(mem.phys_read_raw(addr, len));
        i = i + 1;
    }
    out
}

/// Physical memory held in a buffer.
pub struct DummyMemory {
    pub mem: Vec<u8>,
}

impl DummyMemory {
    pub fn new(mem: Vec<u8>) -> (r: DummyMemory)
        ensures
            r.mem@ == mem@,
    {
        DummyMemory { mem }
    }
}

impl PhysicalMemory for DummyMemory {
    open spec fn phys_view(&self) -> Seq<u8> {
        self.mem@
    }

    fn phys_read_raw(&self, addr: u64, len: usize) -> (r: Result<Vec<u8>, ErrorKind>) {
        let n = self.mem.len();
        if addr as u128 + len as u128 > n as u128 {
            return Err(ErrorKind::OutOfBounds);
        }
        let start = addr as usize;
        let mut out: Vec<u8> = Vec::with_capacity(len);
        let mut i: usize = 0;
        while i < len
            invariant
                i <= len,
                start == addr,
                start + len <= n,
                n == self.mem@.len(),
                out@ == self.mem@.subrange(start as int, start + i),
            decreases len - i,
        {
            out.push(self.mem[start + i]);
            i = i + 1;
            assert(out@ =~= self.mem@.subrange(start as int, start + i));
        }
        Ok(out)
    }
}

} // verus!
