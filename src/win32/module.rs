//! Reading a module's `_LDR_DATA_TABLE_ENTRY`.

use vstd::prelude::*;

use super::text::{string_from_utf16, utf16_lossy};
use crate::architecture::ArchitectureIdent;
use crate::endian::{decode_u16_le, le2};
use crate::error::ErrorKind;
use crate::os::module::ModuleInfo;
use crate::phys_mem::PhysicalMemory;
use crate::types::Address;
use crate::virt_mem::{
    read_addr_spec, read_u32_spec, virt_ok, virt_read_addr_arch, virt_read_raw, virt_read_spec,
    virt_read_u32, VirtualTranslate,
};
use vstd::wrapping::u64_specs::wrapping_add;

verus! {

/// Offsets of `DllBase`, `SizeOfImage`, `FullDllName` and `BaseDllName` in
/// the `_LDR_DATA_TABLE_ENTRY` of an architecture of `bits` bits.
pub open spec fn ldr_offsets(bits: u8) -> (u64, u64, u64, u64) {
    if bits == 64 {
        (0x30, 0x40, 0x48, 0x58)
    } else {
        (0x18, 0x20, 0x24, 0x2c)
    }
}

/// The UTF-16 units of little-endian bytes, two bytes each.
pub open spec fn utf16_units(b: Seq<u8>) -> Seq<u16> {
    Seq::new(b.len() / 2, |i: int| le2(b[2 * i], b[2 * i + 1]))
}

/// The 16-bit value at `addr`.
pub open spec fn read_u16_spec(m: Seq<u8>, vat: &VirtualTranslate, dtb: u64, addr: u64) -> Result<
    u16,
    ErrorKind,
> {
    if addr + 2 > u64::MAX + 1 {
        Err(ErrorKind::OutOfBounds)
    } else if virt_ok(m, vat, dtb, addr, 2) {
        let b = virt_read_spec(m, vat, dtb, addr, 2);
        Ok(le2(b[0], b[1]))
    } else {
        Err(ErrorKind::PartialData)
    }
}

/// The units of the `_UNICODE_STRING` at `addr`: its length in bytes (even
/// and not zero), then its buffer pointer.
pub open spec fn unicode_string_spec(
    m: Seq<u8>,
    vat: &VirtualTranslate,
    dtb: u64,
    arch: ArchitectureIdent,
    addr: u64,
) -> Result<Seq<u16>, ErrorKind> {
    match read_u16_spec(m, vat, dtb, addr) {
        Err(e) => Err(e),
        Ok(len) => if len == 0 || len % 2 != 0 {
            Err(ErrorKind::InvalidString)
        } else {
            let ptr_off: u64 = if arch.bits_spec() == 64 {
                8
            } else {
                4
            };
            match read_addr_spec(m, vat, dtb, arch.bits_spec(), wrapping_add(addr, ptr_off)) {
                Err(e) => Err(e),
                Ok(buf) => if buf + len > u64::MAX + 1 {
                    Err(ErrorKind::OutOfBounds)
                } else if virt_ok(m, vat, dtb, buf, len as nat) {
                    Ok(utf16_units(virt_read_spec(m, vat, dtb, buf, len as nat)))
                } else {
                    Err(ErrorKind::PartialData)
                },
            }
        },
    }
}

/// What the module entry at `entry` holds: image base, image size, full path
/// and name, as UTF-16 units.
pub open spec fn module_entry_spec(
    m: Seq<u8>,
    vat: &VirtualTranslate,
    dtb: u64,
    arch: ArchitectureIdent,
    entry: u64,
) -> Result<(u64, u32, Seq<u16>, Seq<u16>), ErrorKind> {
    let (base_off, size_off, path_off, name_off) = ldr_offsets(arch.bits_spec());
    match read_addr_spec(m, vat, dtb, arch.bits_spec(), wrapping_add(entry, base_off)) {
        Err(e) => Err(e),
        Ok(base) => match read_u32_spec(m, vat, dtb, wrapping_add(entry, size_off)) {
            Err(e) => Err(e),
            Ok(size) => match unicode_string_spec(m, vat, dtb, arch, wrapping_add(entry, path_off)) {
                Err(e) => Err(e),
                Ok(path) => match unicode_string_spec(
                    m,
                    vat,
                    dtb,
                    arch,
                    wrapping_add(entry, name_off),
                ) {
                    Err(e) => Err(e),
                    Ok(name) => Ok((base, size, path, name)),
                },
            },
        },
    }
}

/// Reads the 16-bit value at `addr`.
fn virt_read_u16<T: PhysicalMemory>(mem: &T, vat: &VirtualTranslate, dtb: Address, addr: Address) -> (r:
    Result<u16, ErrorKind>)
    requires
        vat.wf(),
    ensures
        r == read_u16_spec(mem.phys_view(), vat, dtb.addr, addr.addr),
{
    if addr.addr > u64::MAX - 2 + 1 {
        return Err(ErrorKind::OutOfBounds);
    }
    match virt_read_raw(mem, vat, dtb, addr, 2) {
        Ok(b) => Ok(decode_u16_le(b.as_slice(), 0)),
        Err(_) => Err(ErrorKind::PartialData),
    }
}

/// Reads the units of the `_UNICODE_STRING` at `addr`.
pub fn read_unicode_string<T: PhysicalMemory>(
    mem: &T,
    vat: &VirtualTranslate,
    dtb: Address,
    arch: ArchitectureIdent,
    addr: Address,
) -> (r: Result<Vec<u16>, ErrorKind>)
    requires
        vat.wf(),
    ensures
        r is Ok <==> unicode_string_spec(mem.phys_view(), vat, dtb.addr, arch, addr.addr) is Ok,
        r is Ok ==> r->Ok_0@ == unicode_string_spec(mem.phys_view(), vat, dtb.addr, arch, addr.addr)->Ok_0,
        r is Err ==> r->Err_0 == unicode_string_spec(
            mem.phys_view(),
            vat,
            dtb.addr,
            arch,
            addr.addr,
        )->Err_0,
{
    let len = match virt_read_u16(mem, vat, dtb, addr) {
        Ok(l) => l,
        Err(e) => {
            return Err(e);
        },
    };
    if len == 0 || len % 2 != 0 {
        return Err(ErrorKind::InvalidString);
    }
    let ptr_off: u64 = if arch.bits() == 64 {
        8
    } else {
        4
    };
    let buf = match virt_read_addr_arch(mem, vat, dtb, arch, Address::from_u64(addr.addr.wrapping_add(ptr_off))) {
        Ok(b) => b,
        Err(e) => {
            return Err(e);
        },
    };
    if buf.addr > u64::MAX - len as u64 + 1 {
        return Err(ErrorKind::OutOfBounds);
    }
    let bytes = match virt_read_raw(mem, vat, dtb, buf, len as usize) {
        Ok(b) => b,
        Err(_) => {
            return Err(ErrorKind::PartialData);
        },
    };
    let ghost b = bytes@;
    assert(b.len() == len as nat);
    let count = bytes.len() / 2;
    let mut units: Vec<u16> = Vec::with_capacity(count);
    let mut i: usize = 0;
    while i < count
        invariant
            count == b.len() / 2,
            b.len() <= 0x10000,
            bytes@ == b,
            i <= count,
            units@ == utf16_units(b).subrange(0, i as int),
        decreases count - i,
    {
        units.push(decode_u16_le(bytes.as_slice(), 2 * i));
        proof {
            assert(units@ =~= utf16_units(b).subrange(0, i + 1));
        }
        i = i + 1;
    }
    assert(units@ =~= utf16_units(b));
    Ok(units)
}

/// Reads the module whose `_LDR_DATA_TABLE_ENTRY` is at `entry`, in the
/// address space at `dtb`, with pointers of `arch`; it belongs to the process
/// whose structure is at `parent`.
pub fn module_info_from_entry<T: PhysicalMemory>(
    mem: &T,
    vat: &VirtualTranslate,
    dtb: Address,
    arch: ArchitectureIdent,
    entry: Address,
    parent: Address,
) -> (r: Result<(ModuleInfo, Vec<u16>), ErrorKind>)
    requires
        vat.wf(),
    ensures
        r is Ok <==> module_entry_spec(mem.phys_view(), vat, dtb.addr, arch, entry.addr) is Ok,
        r is Err ==> r->Err_0 == module_entry_spec(
            mem.phys_view(),
            vat,
            dtb.addr,
            arch,
            entry.addr,
        )->Err_0,
        r is Ok ==> {
            let (base, size, path, name) = module_entry_spec(
                mem.phys_view(),
                vat,
                dtb.addr,
                arch,
                entry.addr,
            )->Ok_0;
            let (info, units) = r->Ok_0;
            &&& info.address == entry
            &&& info.parent_process == parent
            &&& info.base.addr == base
            &&& info.size == size
            &&& info.path@ == utf16_lossy(path)
            &&& info.name@ == utf16_lossy(name)
            &&& info.arch == arch
            &&& units@ == name
        },
{
    let (base_off, size_off, path_off, name_off): (u64, u64, u64, u64) = if arch.bits() == 64 {
        (0x30, 0x40, 0x48, 0x58)
    } else {
        (0x18, 0x20, 0x24, 0x2c)
    };
    let base = match virt_read_addr_arch(mem, vat, dtb, arch, Address::from_u64(entry.addr.wrapping_add(base_off))) {
        Ok(b) => b,
        Err(e) => {
            return Err(e);
        },
    };
    let size = match virt_read_u32(mem, vat, dtb, Address::from_u64(entry.addr.wrapping_add(size_off))) {
        Ok(s) => s,
        Err(e) => {
            return Err(e);
        },
    };
    let path = match read_unicode_string(mem, vat, dtb, arch, Address::from_u64(entry.addr.wrapping_add(path_off))) {
        Ok(p) => p,
        Err(e) => {
            return Err(e);
        },
    };
    let name = match read_unicode_string(mem, vat, dtb, arch, Address::from_u64(entry.addr.wrapping_add(name_off))) {
        Ok(n) => n,
        Err(e) => {
            return Err(e);
        },
    };
    let info = ModuleInfo {
        address: entry,
        parent_process: parent,
        base,
        size: size as u64,
        name: string_from_utf16(name.as_slice()),
        path: string_from_utf16(path.as_slice()),
        arch,
    };
    Ok((info, name))
}

} // verus!
