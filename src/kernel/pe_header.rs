//! Recognising the kernel image: a PE image starts with a DOS header ("MZ")
//! whose `e_lfanew` points at the PE signature ("PE\0\0").

use vstd::prelude::*;

use crate::endian::le4;
use crate::error::ErrorKind;
use crate::phys_mem::PhysicalMemory;
use crate::types::Address;
use crate::virt_mem::{virt_ok, virt_read_raw, virt_read_spec, VirtualTranslate};

verus! {

/// Bytes of the image that are read to recognise it.
pub const HEADER_READ: usize = 4096;

/// `e_lfanew` of the DOS header at the start of `image`.
pub open spec fn e_lfanew(image: Seq<u8>) -> int {
    le4(image[0x3c], image[0x3d], image[0x3e], image[0x3f]) as int
}

/// Whether `image` starts with "MZ" and its `e_lfanew` points, within
/// `image`, at "PE\0\0".
pub open spec fn has_pe_signature(image: Seq<u8>) -> bool {
    &&& image.len() >= 0x40
    &&& image[0] == 0x4d
    &&& image[1] == 0x5a
    &&& e_lfanew(image) + 4 <= image.len()
    &&& image[e_lfanew(image)] == 0x50
    &&& image[e_lfanew(image) + 1] == 0x45
    &&& image[e_lfanew(image) + 2] == 0
    &&& image[e_lfanew(image) + 3] == 0
}

/// Whether `image` carries the DOS and PE signatures.
pub fn pe_signature(image: &[u8]) -> (r: bool)
    ensures
        r == has_pe_signature(image@),
{
    let len = image.len();
    if len < 0x40 || image[0] != 0x4d || image[1] != 0x5a {
        return false;
    }
    let lfanew = (image[0x3c] as u32) | ((image[0x3d] as u32) << 8) | ((image[0x3e] as u32) << 16) | ((
    image[0x3f] as u32) << 24);
    if lfanew as usize > len || len - (lfanew as usize) < 4 {
        return false;
    }
    let p = lfanew as usize;
    image[p] == 0x50 && image[p + 1] == 0x45 && image[p + 2] == 0 && image[p + 3] == 0
}

/// Checks a candidate directory table base: the first page at `kernel_base`,
/// read through it, must be a PE image. `PartialData` where that page does
/// not read, `PESignatureMismatch` where it is no PE image.
pub fn validate_kernel_image<T: PhysicalMemory>(
    mem: &T,
    vat: &VirtualTranslate,
    dtb: Address,
    kernel_base: Address,
) -> (r: Result<(), ErrorKind>)
    requires
        vat.wf(),
    ensures
        kernel_base.addr + HEADER_READ > u64::MAX + 1 ==> r == Err::<(), ErrorKind>(ErrorKind::OutOfBounds),
        kernel_base.addr + HEADER_READ <= u64::MAX + 1 ==> {
            let ok = virt_ok(mem.phys_view(), vat, dtb.addr, kernel_base.addr, HEADER_READ as nat);
            let image = virt_read_spec(mem.phys_view(), vat, dtb.addr, kernel_base.addr, HEADER_READ as nat);
            &&& !ok ==> r == Err::<(), ErrorKind>(ErrorKind::PartialData)
            &&& ok && has_pe_signature(image) ==> r is Ok
            &&& ok && !has_pe_signature(image) ==> r == Err::<(), ErrorKind>(ErrorKind::PESignatureMismatch)
        },
{
    if kernel_base.addr > u64::MAX - HEADER_READ as u64 + 1 {
        return Err(ErrorKind::OutOfBounds);
    }
    match virt_read_raw(mem, vat, dtb, kernel_base, HEADER_READ) {
        Ok(image) => if pe_signature(image.as_slice()) {
            Ok(())
        } else {
            Err(ErrorKind::PESignatureMismatch)
        },
        Err(_) => Err(ErrorKind::PartialData),
    }
}

} // verus!
