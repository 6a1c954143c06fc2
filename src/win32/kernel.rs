//! The kernel of a Windows target: its address space, its process list and
//! what is read of each process.

use vstd::prelude::*;

use super::offsets::{Win32KernelInfo, Win32Offsets};
use super::pe::{export_dir_overflow, export_dir_overflows, pe_export_by_name, pe_export_of};
use super::process::{
    module_list_at_peb_spec, Win32ModuleListInfo, Win32Process, Win32ProcessInfo, EXIT_STATUS_STILL_ACTIVE,
    IMAGE_FILE_NAME_LENGTH,
};
use super::text::{is_ascii_bytes, string_from_bytes, utf8_lossy};
use crate::architecture::{arch_layout, ArchitectureIdent};
use crate::error::ErrorKind;
use crate::os::process::ProcessInfo;
use crate::phys_mem::PhysicalMemory;
use crate::types::{Address, Endianess};
use crate::virt_mem::{
    chunk_len, chunk_spec, cstr_of, cstr_spec, lemma_cstr_leading_nul, lemma_failed_within,
    lemma_first_chunk_readable, lemma_virt_read_len, read_addr_spec, readable_part, readable_prefix, read_u32_spec, virt_ok, virt_read_addr_arch,
    virt_read_spec, VirtualDMA, VirtualTranslate,
};
use vstd::wrapping::u64_specs::{wrapping_add, wrapping_sub};

verus! {

/// Most entries a walk of the process list visits.
pub const MAX_ITER_COUNT: usize = 65536;

/// The kernel: its address space, the offsets of its structures, what the
/// scan found of it, and the directory table base of the System process.
pub struct Win32Kernel<T> {
    pub virt_mem: VirtualDMA<T>,
    pub offsets: Win32Offsets,
    pub kernel_info: Win32KernelInfo,
    pub sysproc_dtb: Address,
    /// The kernel module list, once looked up.
    pub kernel_modules: Option<Win32ModuleListInfo>,
}

/// The architecture of a process on a system of `sys_arch` whose
/// `Wow64Process` pointer is `wow64`: an emulated 32-bit process on a 64-bit
/// system, the system's own otherwise; none for an unknown pointer width.
pub open spec fn proc_arch_spec(sys_arch: ArchitectureIdent, wow64: u64) -> Option<ArchitectureIdent> {
    if sys_arch.bits_spec() == 64 {
        if wow64 == 0 {
            Some(sys_arch)
        } else {
            Some(ArchitectureIdent::X86(32, true))
        }
    } else if sys_arch.bits_spec() == 32 {
        Some(sys_arch)
    } else {
        None
    }
}

/// The name in an `ImageFileName` field of fifteen bytes: the bytes before
/// the first NUL, with a NUL forced after the fifteenth.
pub open spec fn image_name_spec(b: Seq<u8>) -> Seq<u8> {
    cstr_spec(b.push(0))->Ok_0
}

/// The name of a process always ends within the fifteen bytes of its field:
/// it is a prefix of them, at most fifteen long, with no NUL in it.
pub proof fn lemma_image_name(b: Seq<u8>)
    requires
        b.len() == IMAGE_FILE_NAME_LENGTH,
    ensures
        cstr_spec(b.push(0)) is Ok,
        image_name_spec(b).len() <= IMAGE_FILE_NAME_LENGTH,
        image_name_spec(b) == b.subrange(0, image_name_spec(b).len() as int),
        forall|i: int| 0 <= i < image_name_spec(b).len() ==> #[trigger] image_name_spec(b)[i] != 0,
        image_name_spec(b).len() < IMAGE_FILE_NAME_LENGTH ==> b[image_name_spec(b).len() as int] == 0,
{
    let s = b.push(0);
    lemma_first_nul_found(s, 0);
    let k = crate::virt_mem::first_nul_from(s, 0)->Some_0;
    assert(image_name_spec(b) =~= s.subrange(0, k as int));
    assert(s.subrange(0, k as int) =~= b.subrange(0, k as int));
}

impl<T: PhysicalMemory> Win32Kernel<T> {
    /// The name of a process whose fifteen name bytes read is those bytes up to
    /// the first NUL, or all fifteen where there is none: at most fifteen
    /// characters are taken, the sixteenth counts as NUL.
    pub proof fn lemma_name_of_readable_field(&self, addr: u64)
        requires
            addr + IMAGE_FILE_NAME_LENGTH <= u64::MAX + 1,
            virt_ok(
                self.virt_mem.mem(),
                &self.virt_mem.vat,
                self.virt_mem.dtb.addr,
                addr,
                IMAGE_FILE_NAME_LENGTH as nat,
            ),
        ensures
            ({
                let b = virt_read_spec(
                    self.virt_mem.mem(),
                    &self.virt_mem.vat,
                    self.virt_mem.dtb.addr,
                    addr,
                    IMAGE_FILE_NAME_LENGTH as nat,
                );
                let name = self.image_name_read_spec(addr)->Ok_0;
                &&& self.image_name_read_spec(addr) is Ok
                &&& name.len() <= IMAGE_FILE_NAME_LENGTH
                &&& name == b.subrange(0, name.len() as int)
                &&& forall|i: int| 0 <= i < name.len() ==> #[trigger] name[i] != 0
                &&& name.len() < IMAGE_FILE_NAME_LENGTH ==> b[name.len() as int] == 0
            }),
    {
        lemma_virt_read_len(
            self.virt_mem.mem(),
            &self.virt_mem.vat,
            self.virt_mem.dtb.addr,
            addr,
            IMAGE_FILE_NAME_LENGTH as nat,
        );
        lemma_image_name(
            virt_read_spec(
                self.virt_mem.mem(),
                &self.virt_mem.vat,
                self.virt_mem.dtb.addr,
                addr,
                IMAGE_FILE_NAME_LENGTH as nat,
            ),
        );
    }

    /// A process name whose first byte reads and is NUL is empty, whatever the
    /// bytes after it, readable or not.
    pub proof fn lemma_name_first_byte_nul(&self, addr: u64)
        requires
            addr + IMAGE_FILE_NAME_LENGTH <= u64::MAX + 1,
            chunk_spec(
                self.virt_mem.mem(),
                &self.virt_mem.vat,
                self.virt_mem.dtb.addr,
                addr,
                chunk_len(addr, IMAGE_FILE_NAME_LENGTH as nat),
            ) is Some,
            chunk_spec(
                self.virt_mem.mem(),
                &self.virt_mem.vat,
                self.virt_mem.dtb.addr,
                addr,
                chunk_len(addr, IMAGE_FILE_NAME_LENGTH as nat),
            )->Some_0[0] == 0,
        ensures
            self.image_name_read_spec(addr) == Ok::<Seq<u8>, ErrorKind>(Seq::<u8>::empty()),
    {
        let m = self.virt_mem.mem();
        let vat = &self.virt_mem.vat;
        let dtb = self.virt_mem.dtb.addr;
        let n = IMAGE_FILE_NAME_LENGTH as nat;
        lemma_first_chunk_readable(m, vat, dtb, addr, n);
        lemma_failed_within(m, vat, dtb, addr, n);
        lemma_virt_read_len(m, vat, dtb, addr, n);
        let b = virt_read_spec(m, vat, dtb, addr, n);
        if virt_ok(m, vat, dtb, addr, n) {
            lemma_image_name(b);
            assert(b.push(0)[0] == 0);
            lemma_cstr_leading_nul(b.push(0));
        } else {
            let p = readable_prefix(m, vat, dtb, addr, n);
            assert(b.subrange(0, p)[0] == 0);
            lemma_cstr_leading_nul(b.subrange(0, p));
        }
    }
}

/// A NUL at the end of `s` is found from any start at or before it, and no NUL
/// lies between the start and the one found.
proof fn lemma_first_nul_found(s: Seq<u8>, i: nat)
    requires
        s.len() >= 1,
        s[s.len() - 1] == 0,
        i < s.len(),
    ensures
        crate::virt_mem::first_nul_from(s, i) is Some,
        i <= crate::virt_mem::first_nul_from(s, i)->Some_0 < s.len(),
        s[crate::virt_mem::first_nul_from(s, i)->Some_0 as int] == 0,
        forall|j: int|
            i <= j < crate::virt_mem::first_nul_from(s, i)->Some_0 ==> #[trigger] s[j] != 0,
    decreases s.len() - i,
{
    if s[i as int] != 0 {
        lemma_first_nul_found(s, i + 1);
    }
}

impl<T: PhysicalMemory> Win32Kernel<T> {
    pub open spec fn wf(&self) -> bool {
        &&& self.virt_mem.wf()
        &&& self.virt_mem.arch == self.kernel_info.arch
        &&& self.virt_mem.dtb == self.kernel_info.dtb
    }

    /// Well formed, and translating with the layout of its architecture in
    /// little-endian byte order, as `new` opens it.
    pub open spec fn opened(&self) -> bool {
        &&& self.wf()
        &&& arch_layout(self.kernel_info.arch, &self.virt_mem.vat.mmu)
        &&& self.virt_mem.vat.endian == Endianess::LittleEndian
    }

    /// The pointer at `addr` in the kernel's address space.
    pub open spec fn read_addr(&self, addr: u64) -> Result<u64, ErrorKind> {
        read_addr_spec(
            self.virt_mem.mem(),
            &self.virt_mem.vat,
            self.virt_mem.dtb.addr,
            self.kernel_info.arch.bits_spec(),
            addr,
        )
    }

    /// The 32-bit value at `addr` in the kernel's address space.
    pub open spec fn read_u32(&self, addr: u64) -> Result<u32, ErrorKind> {
        read_u32_spec(self.virt_mem.mem(), &self.virt_mem.vat, self.virt_mem.dtb.addr, addr)
    }

    /// The System process's directory table base: the one stored in its
    /// `_EPROCESS` where that reads, is page-aligned and is not null; the one
    /// the scan found otherwise.
    pub open spec fn sysproc_dtb_spec(&self) -> u64 {
        match self.read_addr(
            wrapping_add(self.kernel_info.eprocess_base.addr, self.offsets.kproc_dtb),
        ) {
            Ok(v) => if v & 0xfffu64 == 0 && v != 0 {
                v
            } else {
                self.kernel_info.dtb.addr
            },
            Err(_) => self.kernel_info.dtb.addr,
        }
    }

    /// Opens the kernel over `phys_mem`, translating with the scan's table base.
    pub fn new(phys_mem: T, offsets: Win32Offsets, kernel_info: Win32KernelInfo) -> (k: Self)
        requires
            kernel_info.arch.has_layout(),
        ensures
            k.opened(),
            k.virt_mem.phys_mem == phys_mem,
            k.offsets == offsets,
            k.kernel_info == kernel_info,
            k.kernel_modules is None,
            k.sysproc_dtb.addr == k.sysproc_dtb_spec(),
    {
        let vat = VirtualTranslate {
            mmu: kernel_info.arch.mmu_spec().unwrap(),
            endian: kernel_info.arch.endianess(),
        };
        let virt_mem = VirtualDMA::with_vat(phys_mem, kernel_info.arch, vat, kernel_info.dtb);
        let mut kernel = Win32Kernel {
            virt_mem,
            offsets,
            kernel_info,
            sysproc_dtb: kernel_info.dtb,
            kernel_modules: None,
        };
        // the scan finds the boot loader's table base, which need not be the
        // one the running System process uses
        let dtb_addr = Address::from_u64(
            kernel_info.eprocess_base.addr.wrapping_add(offsets.kproc_dtb),
        );
        match kernel.virt_mem.virt_read_addr_arch(kernel_info.arch, dtb_addr) {
            Ok(dtb) => {
                if dtb.addr & 0xfff == 0 && dtb.addr != 0 {
                    kernel.sysproc_dtb = dtb;
                }
            },
            Err(_) => {},
        }
        kernel
    }

    /// Gives the physical memory back.
    pub fn destroy(self) -> (r: T)
        ensures
            r == self.virt_mem.phys_mem,
    {
        self.virt_mem.destroy()
    }


    /// The pointer at `addr` in the address space at `dtb`, of the width of `arch`.
    pub open spec fn read_addr_in(&self, dtb: u64, arch: ArchitectureIdent, addr: u64) -> Result<
        u64,
        ErrorKind,
    > {
        read_addr_spec(self.virt_mem.mem(), &self.virt_mem.vat, dtb, arch.bits_spec(), addr)
    }

    /// The `Wow64Process` pointer of the `_EPROCESS` at `address`; null where
    /// the kernel has no such field.
    pub open spec fn wow64_spec(&self, address: u64) -> Result<u64, ErrorKind> {
        if self.offsets.eproc_wow64 == 0 {
            Ok(0)
        } else {
            self.read_addr(wrapping_add(address, self.offsets.eproc_wow64))
        }
    }

    /// The name in the `ImageFileName` field at `addr`: the fifteen bytes up to
    /// the first NUL, with a NUL forced after them; where some of them do not
    /// read, the bytes before a NUL that precedes the first unreadable one.
    pub open spec fn image_name_read_spec(&self, addr: u64) -> Result<Seq<u8>, ErrorKind> {
        if addr + IMAGE_FILE_NAME_LENGTH > u64::MAX + 1 {
            Err(ErrorKind::OutOfBounds)
        } else if virt_ok(
            self.virt_mem.mem(),
            &self.virt_mem.vat,
            self.virt_mem.dtb.addr,
            addr,
            IMAGE_FILE_NAME_LENGTH as nat,
        ) {
            Ok(
                image_name_spec(
                    virt_read_spec(
                        self.virt_mem.mem(),
                        &self.virt_mem.vat,
                        self.virt_mem.dtb.addr,
                        addr,
                        IMAGE_FILE_NAME_LENGTH as nat,
                    ),
                ),
            )
        } else {
            let b = virt_read_spec(
                self.virt_mem.mem(),
                &self.virt_mem.vat,
                self.virt_mem.dtb.addr,
                addr,
                IMAGE_FILE_NAME_LENGTH as nat,
            );
            let p = readable_prefix(
                self.virt_mem.mem(),
                &self.virt_mem.vat,
                self.virt_mem.dtb.addr,
                addr,
                IMAGE_FILE_NAME_LENGTH as nat,
            );
            match cstr_spec(b.subrange(0, p)) {
                Ok(name) => Ok(name),
                Err(_) => Err(ErrorKind::PartialData),
            }
        }
    }

    /// The id, the name bytes and the architecture of the process whose
    /// `_EPROCESS` is at `address`.
    pub open spec fn base_info_spec(&self, address: u64) -> Result<
        (u32, Seq<u8>, ArchitectureIdent),
        ErrorKind,
    > {
        match self.read_u32(wrapping_add(address, self.offsets.eproc_pid)) {
            Err(e) => Err(e),
            Ok(pid) => match self.image_name_read_spec(
                wrapping_add(address, self.offsets.eproc_name),
            ) {
                Err(e) => Err(e),
                Ok(name) => match self.wow64_spec(address) {
                    Err(e) => Err(e),
                    Ok(wow64) => match proc_arch_spec(self.kernel_info.arch, wow64) {
                        None => Err(ErrorKind::InvalidArchitecture),
                        Some(proc_arch) => Ok((pid, name, proc_arch)),
                    },
                },
            },
        }
    }

    /// Reads the name of a process from its `ImageFileName` field at `addr`:
    /// fifteen bytes, with a NUL forced after them.
    fn read_image_name(&self, addr: Address) -> (r: Result<Vec<u8>, ErrorKind>)
        requires
            self.wf(),
        ensures
            r is Ok <==> self.image_name_read_spec(addr.addr) is Ok,
            r is Ok ==> r->Ok_0@ == self.image_name_read_spec(addr.addr)->Ok_0,
            r is Err ==> r->Err_0 == self.image_name_read_spec(addr.addr)->Err_0,
    {
        if addr.addr > u64::MAX - IMAGE_FILE_NAME_LENGTH as u64 + 1 {
            return Err(ErrorKind::OutOfBounds);
        }
        match self.virt_mem.virt_read_raw(addr, IMAGE_FILE_NAME_LENGTH) {
            Ok(bytes) => {
                let mut bytes = bytes;
                let ghost b = bytes@;
                bytes.push(0);
                proof {
                    lemma_image_name(b);
                }
                match cstr_of(&bytes) {
                    Ok(name) => Ok(name),
                    Err(e) => Err(e),
                }
            },
            Err(p) => {
                let part = readable_part(
                    Ghost(self.virt_mem.mem()),
                    &self.virt_mem.vat,
                    self.virt_mem.dtb,
                    addr,
                    IMAGE_FILE_NAME_LENGTH,
                    p,
                );
                match cstr_of(&part) {
                    Ok(name) => Ok(name),
                    Err(_) => Err(ErrorKind::PartialData),
                }
            },
        }
    }

    /// Reads what is known of the process whose `_EPROCESS` is at `address`
    /// without entering its address space: id, name and architecture.
    pub fn process_info_base_by_address(&self, address: Address) -> (r: Result<
        ProcessInfo,
        ErrorKind,
    >)
        requires
            self.wf(),
        ensures
            r is Ok <==> self.base_info_spec(address.addr) is Ok,
            r is Err ==> r->Err_0 == self.base_info_spec(address.addr)->Err_0,
            r is Ok ==> {
                let (pid, name, proc_arch) = self.base_info_spec(address.addr)->Ok_0;
                let info = r->Ok_0;
                &&& info.address == address
                &&& info.pid == pid
                &&& info.name@ == utf8_lossy(name)
                &&& is_ascii_bytes(name) ==> info.name@.len() == name.len()
                &&& info.path@.len() == 0
                &&& info.command_line@.len() == 0
                &&& info.sys_arch == self.kernel_info.arch
                &&& info.proc_arch == proc_arch
            },
    {
        let pid = match self.virt_mem.virt_read_u32(
            Address::from_u64(address.addr.wrapping_add(self.offsets.eproc_pid)),
        ) {
            Ok(v) => v,
            Err(e) => {
                return Err(e);
            },
        };
        let name_bytes = match self.read_image_name(
            Address::from_u64(address.addr.wrapping_add(self.offsets.eproc_name)),
        ) {
            Ok(b) => b,
            Err(e) => {
                return Err(e);
            },
        };
        let wow64 = if self.offsets.eproc_wow64 == 0 {
            Address::null()
        } else {
            match self.virt_mem.virt_read_addr_arch(
                self.kernel_info.arch,
                Address::from_u64(address.addr.wrapping_add(self.offsets.eproc_wow64)),
            ) {
                Ok(a) => a,
                Err(e) => {
                    return Err(e);
                },
            }
        };
        let sys_arch = self.kernel_info.arch;
        let proc_arch = match sys_arch.bits() {
            64 => {
                if wow64.is_null() {
                    sys_arch
                } else {
                    ArchitectureIdent::X86(32, true)
                }
            },
            32 => sys_arch,
            _ => {
                return Err(ErrorKind::InvalidArchitecture);
            },
        };
        let name = string_from_bytes(name_bytes.as_slice());
        Ok(
            ProcessInfo {
                address,
                pid,
                name,
                path: String::new(),
                command_line: String::new(),
                sys_arch,
                proc_arch,
            },
        )
    }

    /// The thread environment blocks of a process whose first thread is
    /// `ethread`, native and emulated; read only from Windows 8 (6.2) on.
    pub open spec fn teb_spec(&self, ethread: u64, base_info: ProcessInfo) -> Result<
        (Option<u64>, Option<u64>),
        ErrorKind,
    > {
        if self.kernel_info.kernel_winver.at_least_spec(6, 2) {
            match self.read_addr(wrapping_add(ethread, self.offsets.kthread_teb)) {
                Err(e) => Err(e),
                Ok(teb) => if teb != 0 {
                    Ok(
                        (
                            Some(teb),
                            if base_info.proc_arch == base_info.sys_arch {
                                None
                            } else {
                                Some(wrapping_add(teb, 0x2000))
                            },
                        ),
                    )
                } else {
                    Ok((None, None))
                },
            }
        } else {
            Ok((None, None))
        }
    }

    /// The emulated process environment block, read through the emulated
    /// thread environment block in the process's own address space.
    pub open spec fn peb_wow64_spec(
        &self,
        dtb: u64,
        teb_wow64: Option<u64>,
        proc_arch: ArchitectureIdent,
    ) -> Result<Option<u64>, ErrorKind> {
        match teb_wow64 {
            None => Ok(None),
            Some(t) => match self.read_addr_in(
                dtb,
                proc_arch,
                wrapping_add(t, self.offsets.teb_peb_x86),
            ) {
                Err(e) => Err(e),
                Ok(p) => Ok(
                    if p == 0 {
                        None
                    } else {
                        Some(p)
                    },
                ),
            },
        }
    }

    /// The module list of the environment block `peb`, if there is one.
    pub open spec fn module_info_spec(&self, dtb: u64, peb: Option<u64>, arch: ArchitectureIdent) -> Result<
        Option<Win32ModuleListInfo>,
        ErrorKind,
    > {
        match peb {
            None => Ok(None),
            Some(p) => match module_list_at_peb_spec(
                self.virt_mem.mem(),
                &self.virt_mem.vat,
                dtb,
                p,
                arch,
            ) {
                Ok(i) => Ok(Some(i)),
                Err(e) => Err(e),
            },
        }
    }

    /// Everything read of the process `base_info`.
    pub open spec fn process_info_spec(&self, base_info: ProcessInfo) -> Result<
        Win32ProcessInfo,
        ErrorKind,
    > {
        let a = base_info.address.addr;
        match self.read_addr(wrapping_add(a, self.offsets.kproc_dtb)) {
            Err(e) => Err(e),
            Ok(dtb) => match self.read_addr(wrapping_add(a, self.offsets.eproc_peb)) {
                Err(e) => Err(e),
                Ok(peb) => match self.read_addr(wrapping_add(a, self.offsets.eproc_section_base)) {
                    Err(e) => Err(e),
                    Ok(section_base) => match self.read_u32(
                        wrapping_add(a, self.offsets.eproc_exit_status),
                    ) {
                        Err(e) => Err(e),
                        Ok(exit_status) => match self.read_addr(
                            wrapping_add(a, self.offsets.eproc_thread_list),
                        ) {
                            Err(e) => Err(e),
                            Ok(thread) => {
                                let ethread = wrapping_sub(thread, self.offsets.ethread_list_entry);
                                match self.wow64_spec(a) {
                                    Err(e) => Err(e),
                                    Ok(wow64) => match self.teb_spec(ethread, base_info) {
                                        Err(e) => Err(e),
                                        Ok((teb, teb_wow64)) => match self.peb_wow64_spec(
                                            dtb,
                                            teb_wow64,
                                            base_info.proc_arch,
                                        ) {
                                            Err(e) => Err(e),
                                            Ok(peb_wow64) => {
                                                let peb_native = if peb == 0 {
                                                    None
                                                } else {
                                                    Some(peb)
                                                };
                                                match self.module_info_spec(
                                                    dtb,
                                                    peb_native,
                                                    base_info.sys_arch,
                                                ) {
                                                    Err(e) => Err(e),
                                                    Ok(native) => match self.module_info_spec(
                                                        dtb,
                                                        peb_wow64,
                                                        base_info.proc_arch,
                                                    ) {
                                                        Err(e) => Err(e),
                                                        Ok(wow) => Ok(
                                                            Win32ProcessInfo {
                                                                base_info,
                                                                dtb: Address { addr: dtb },
                                                                section_base: Address {
                                                                    addr: section_base,
                                                                },
                                                                exit_status: exit_status as i32,
                                                                ethread: Address { addr: ethread },
                                                                wow64: Address { addr: wow64 },
                                                                teb: opt_addr(teb),
                                                                teb_wow64: opt_addr(teb_wow64),
                                                                peb_native: opt_addr(peb_native),
                                                                peb_wow64: opt_addr(peb_wow64),
                                                                module_info_native: native,
                                                                module_info_wow64: wow,
                                                            },
                                                        ),
                                                    },
                                                }
                                            },
                                        },
                                    },
                                }
                            },
                        },
                    },
                },
            },
        }
    }

    /// Reads a pointer at `addr` in the kernel's address space.
    fn read_kernel_addr(&self, addr: u64) -> (r: Result<u64, ErrorKind>)
        requires
            self.wf(),
        ensures
            r == self.read_addr(addr),
    {
        match self.virt_mem.virt_read_addr_arch(self.kernel_info.arch, Address::from_u64(addr)) {
            Ok(a) => Ok(a.addr),
            Err(e) => Err(e),
        }
    }

    /// Reads the thread environment blocks of a process whose first thread is `ethread`.
    fn read_tebs(&self, ethread: u64, base_info: &ProcessInfo) -> (r: Result<
        (Option<u64>, Option<u64>),
        ErrorKind,
    >)
        requires
            self.wf(),
        ensures
            r == self.teb_spec(ethread, *base_info),
    {
        if self.kernel_info.kernel_winver.at_least(6, 2) {
            let teb = match self.read_kernel_addr(ethread.wrapping_add(self.offsets.kthread_teb)) {
                Ok(t) => t,
                Err(e) => {
                    return Err(e);
                },
            };
            if teb != 0 {
                Ok(
                    (
                        Some(teb),
                        if base_info.proc_arch == base_info.sys_arch {
                            None
                        } else {
                            Some(teb.wrapping_add(0x2000))
                        },
                    ),
                )
            } else {
                Ok((None, None))
            }
        } else {
            Ok((None, None))
        }
    }

    /// Reads the module list of the environment block `peb` in the address space at `dtb`.
    fn read_module_info(&self, dtb: u64, peb: Option<u64>, arch: ArchitectureIdent) -> (r: Result<
        Option<Win32ModuleListInfo>,
        ErrorKind,
    >)
        requires
            self.wf(),
        ensures
            r == self.module_info_spec(dtb, peb, arch),
    {
        match peb {
            None => Ok(None),
            Some(p) => match Win32ModuleListInfo::with_peb(
                &self.virt_mem.phys_mem,
                &self.virt_mem.vat,
                Address::from_u64(dtb),
                Address::from_u64(p),
                arch,
            ) {
                Ok(i) => Ok(Some(i)),
                Err(e) => Err(e),
            },
        }
    }

    /// Reads everything known of the process `base_info`: its table base, its
    /// environment blocks (native and, for an emulated process, 32-bit) and
    /// the heads of its module lists. The 32-bit environment block is read in
    /// the process's own address space with the process's pointer width.
    pub fn process_info_from_base_info(&self, base_info: ProcessInfo) -> (r: Result<
        Win32ProcessInfo,
        ErrorKind,
    >)
        requires
            self.wf(),
        ensures
            r == self.process_info_spec(base_info),
    {
        let a = base_info.address.addr;
        let dtb = match self.read_kernel_addr(a.wrapping_add(self.offsets.kproc_dtb)) {
            Ok(v) => v,
            Err(e) => {
                return Err(e);
            },
        };
        let peb = match self.read_kernel_addr(a.wrapping_add(self.offsets.eproc_peb)) {
            Ok(v) => v,
            Err(e) => {
                return Err(e);
            },
        };
        let section_base = match self.read_kernel_addr(
            a.wrapping_add(self.offsets.eproc_section_base),
        ) {
            Ok(v) => v,
            Err(e) => {
                return Err(e);
            },
        };
        let exit_status = match self.virt_mem.virt_read_u32(
            Address::from_u64(a.wrapping_add(self.offsets.eproc_exit_status)),
        ) {
            Ok(v) => v as i32,
            Err(e) => {
                return Err(e);
            },
        };
        let thread = match self.read_kernel_addr(a.wrapping_add(self.offsets.eproc_thread_list)) {
            Ok(v) => v,
            Err(e) => {
                return Err(e);
            },
        };
        let ethread = thread.wrapping_sub(self.offsets.ethread_list_entry);
        let wow64 = if self.offsets.eproc_wow64 == 0 {
            0
        } else {
            match self.read_kernel_addr(a.wrapping_add(self.offsets.eproc_wow64)) {
                Ok(v) => v,
                Err(e) => {
                    return Err(e);
                },
            }
        };
        let (teb, teb_wow64) = match self.read_tebs(ethread, &base_info) {
            Ok(t) => t,
            Err(e) => {
                return Err(e);
            },
        };
        // from here on the reads are in the process's own address space
        let peb_wow64 = match teb_wow64 {
            None => None,
            Some(t) => match virt_read_addr_arch(
                &self.virt_mem.phys_mem,
                &self.virt_mem.vat,
                Address::from_u64(dtb),
                base_info.proc_arch,
                Address::from_u64(t.wrapping_add(self.offsets.teb_peb_x86)),
            ) {
                Ok(p) => if p.addr == 0 {
                    None
                } else {
                    Some(p.addr)
                },
                Err(e) => {
                    return Err(e);
                },
            },
        };
        let peb_native = if peb == 0 {
            None
        } else {
            Some(peb)
        };
        let module_info_native = match self.read_module_info(dtb, peb_native, base_info.sys_arch) {
            Ok(i) => i,
            Err(e) => {
                return Err(e);
            },
        };
        let module_info_wow64 = match self.read_module_info(dtb, peb_wow64, base_info.proc_arch) {
            Ok(i) => i,
            Err(e) => {
                return Err(e);
            },
        };
        Ok(
            Win32ProcessInfo {
                base_info,
                dtb: Address::from_u64(dtb),
                section_base: Address::from_u64(section_base),
                exit_status,
                ethread: Address::from_u64(ethread),
                wow64: Address::from_u64(wow64),
                teb: to_addr(teb),
                teb_wow64: to_addr(teb_wow64),
                peb_native: to_addr(peb_native),
                peb_wow64: to_addr(peb_wow64),
                module_info_native,
                module_info_wow64,
            },
        )
    }

    /// The process `info`, taking the kernel along: everything known of it is
    /// read first, as `process_info_from_base_info` reads it.
    pub fn into_process_by_info(self, info: ProcessInfo) -> (r: Result<Win32Process<T>, ErrorKind>)
        requires
            self.wf(),
        ensures
            self.process_info_spec(info) is Ok ==> r is Ok && r->Ok_0.kernel == self
                && r->Ok_0.proc_info == self.process_info_spec(info)->Ok_0,
            self.process_info_spec(info) is Err ==> r is Err && r->Err_0 == self.process_info_spec(
                info,
            )->Err_0,
    {
        match self.process_info_from_base_info(info) {
            Ok(proc_info) => Ok(Win32Process::with_kernel(self, proc_info)),
            Err(e) => Err(e),
        }
    }

    /// The bytes of the kernel image, where the whole image reads.
    pub open spec fn kernel_image_spec(&self) -> Result<Seq<u8>, ErrorKind> {
        let base = self.kernel_info.base.addr;
        let size = self.kernel_info.size;
        if base + size > u64::MAX + 1 || size > usize::MAX {
            Err(ErrorKind::OutOfBounds)
        } else if !virt_ok(
            self.virt_mem.mem(),
            &self.virt_mem.vat,
            self.virt_mem.dtb.addr,
            base,
            size as nat,
        ) {
            Err(ErrorKind::PartialData)
        } else {
            Ok(
                virt_read_spec(
                    self.virt_mem.mem(),
                    &self.virt_mem.vat,
                    self.virt_mem.dtb.addr,
                    base,
                    size as nat,
                ),
            )
        }
    }

    /// The module list whose head is the pointer at `rva` in the kernel image.
    pub open spec fn module_head_spec(&self, rva: u32) -> Result<Win32ModuleListInfo, ErrorKind> {
        match self.read_addr(wrapping_add(self.kernel_info.base.addr, rva as u64)) {
            Err(e) => Err(e),
            Ok(head) => Ok(Win32ModuleListInfo { module_base: Address { addr: head } }),
        }
    }

    /// Whether `r` is what looking up the kernel module list may give: the
    /// image's read error; `PE` where the export directory's bound overflows
    /// or pelite fails; `ForwardedExport` for a forwarded `PsLoadedModuleList`;
    /// otherwise the list whose head pointer the export names.
    pub open spec fn kernel_modules_result(&self, r: Result<Win32ModuleListInfo, ErrorKind>) -> bool {
        match self.kernel_image_spec() {
            Err(e) => r == Err::<Win32ModuleListInfo, ErrorKind>(e),
            Ok(image) => if export_dir_overflows(image) {
                r == Err::<Win32ModuleListInfo, ErrorKind>(ErrorKind::PE)
            } else if r == Err::<Win32ModuleListInfo, ErrorKind>(ErrorKind::PE) {
                true
            } else {
                match pe_export_of(image, "PsLoadedModuleList"@) {
                    Some(None) => r == Err::<Win32ModuleListInfo, ErrorKind>(
                        ErrorKind::ForwardedExport,
                    ),
                    Some(Some(rva)) => r == self.module_head_spec(rva),
                    None => false,
                }
            },
        }
    }

    /// The kernel module list: looked up in the kernel image on the first
    /// call, and kept once found.
    pub fn kernel_modules(&mut self) -> (r: Result<Win32ModuleListInfo, ErrorKind>)
        requires
            old(self).wf(),
        ensures
            final(self).wf(),
            final(self).virt_mem == old(self).virt_mem,
            final(self).offsets == old(self).offsets,
            final(self).kernel_info == old(self).kernel_info,
            final(self).sysproc_dtb == old(self).sysproc_dtb,
            old(self).kernel_modules is Some ==> r == Ok::<Win32ModuleListInfo, ErrorKind>(
                old(self).kernel_modules->Some_0,
            ) && final(self).kernel_modules == old(self).kernel_modules,
            old(self).kernel_modules is None ==> old(self).kernel_modules_result(r) && (r is Ok
                ==> final(self).kernel_modules == Some(r->Ok_0)) && (r is Err
                ==> final(self).kernel_modules is None),
    {
        match self.kernel_modules {
            Some(info) => {
                return Ok(info);
            },
            None => {},
        }
        let base = self.kernel_info.base;
        let size = self.kernel_info.size;
        if base.addr as u128 + size as u128 > u64::MAX as u128 + 1 || size as u128
            > usize::MAX as u128 {
            return Err(ErrorKind::OutOfBounds);
        }
        let len = size as usize;
        assert(len as nat == size as nat);
        let image = match self.virt_mem.virt_read_raw(base, len) {
            Ok(image) => image,
            Err(_) => {
                return Err(ErrorKind::PartialData);
            },
        };
        assert(image@ == virt_read_spec(
            self.virt_mem.mem(),
            &self.virt_mem.vat,
            self.virt_mem.dtb.addr,
            base.addr,
            size as nat,
        ));
        let name = "PsLoadedModuleList";
        proof {
            reveal_strlit("PsLoadedModuleList");
        }
        assert(name@ == "PsLoadedModuleList"@);
        if export_dir_overflow(image.as_slice()) {
            return Err(ErrorKind::PE);
        }
        let found = pe_export_by_name(image.as_slice(), name);
        let info = match self.module_list_from_lookup(found) {
            Ok(info) => info,
            Err(e) => {
                return Err(e);
            },
        };
        self.kernel_modules = Some(info);
        Ok(info)
    }

    /// The kernel module list that a lookup of `PsLoadedModuleList` in the
    /// kernel image gives: `PE` where pelite failed, `ForwardedExport` where
    /// the export is forwarded, and otherwise the list whose head is the
    /// pointer at the symbol's address.
    pub fn module_list_from_lookup(&self, found: Result<Option<u32>, pelite::Error>) -> (r: Result<
        Win32ModuleListInfo,
        ErrorKind,
    >)
        requires
            self.wf(),
        ensures
            found is Err ==> r == Err::<Win32ModuleListInfo, ErrorKind>(ErrorKind::PE),
            found is Ok && found->Ok_0 is None ==> r == Err::<Win32ModuleListInfo, ErrorKind>(
                ErrorKind::ForwardedExport,
            ),
            found is Ok && found->Ok_0 is Some ==> r == self.module_head_spec(found->Ok_0->Some_0),
    {
        match found {
            Ok(Some(rva)) => match self.read_kernel_addr(
                self.kernel_info.base.addr.wrapping_add(rva as u64),
            ) {
                Ok(head) => Ok(Win32ModuleListInfo::with_base(Address::from_u64(head))),
                Err(e) => Err(e),
            },
            Ok(None) => Err(ErrorKind::ForwardedExport),
            Err(_) => Err(ErrorKind::PE),
        }
    }

    /// The kernel itself as a process: id 0, named `ntoskrnl.exe`, in the
    /// System process's address space, with the kernel module list.
    pub fn kernel_process_info(&mut self) -> (r: Result<Win32ProcessInfo, ErrorKind>)
        requires
            old(self).wf(),
        ensures
            final(self).wf(),
            final(self).virt_mem == old(self).virt_mem,
            final(self).kernel_info == old(self).kernel_info,
            final(self).sysproc_dtb == old(self).sysproc_dtb,
            final(self).offsets == old(self).offsets,
            old(self).kernel_modules is Some ==> r is Ok && r->Ok_0.module_info_native == Some(
                old(self).kernel_modules->Some_0,
            ) && final(self).kernel_modules == old(self).kernel_modules,
            old(self).kernel_modules is None && r is Ok ==> r->Ok_0.module_info_native is Some
                && old(self).kernel_modules_result(
                Ok::<Win32ModuleListInfo, ErrorKind>(r->Ok_0.module_info_native->Some_0),
            ),
            r is Err ==> old(self).kernel_modules is None && old(self).kernel_modules_result(
                Err::<Win32ModuleListInfo, ErrorKind>(r->Err_0),
            ) && final(self).kernel_modules is None,
            r is Ok ==> {
                let info = r->Ok_0;
                &&& final(self).kernel_modules is Some
                &&& info.module_info_native == final(self).kernel_modules
                &&& info.base_info.address == old(self).kernel_info.base
                &&& info.base_info.pid == 0
                &&& info.base_info.name@ == "ntoskrnl.exe"@
                &&& info.base_info.sys_arch == old(self).kernel_info.arch
                &&& info.base_info.proc_arch == old(self).kernel_info.arch
                &&& info.dtb == old(self).sysproc_dtb
                &&& info.section_base.addr == 0
                &&& info.exit_status == EXIT_STATUS_STILL_ACTIVE
                &&& info.ethread.addr == 0
                &&& info.wow64.addr == 0
                &&& info.teb is None
                &&& info.teb_wow64 is None
                &&& info.peb_native is None
                &&& info.peb_wow64 is None
                &&& info.module_info_wow64 is None
            },
    {
        let kernel_modules = match self.kernel_modules() {
            Ok(m) => m,
            Err(e) => {
                return Err(e);
            },
        };
        let arch = self.kernel_info.arch;
        Ok(
            Win32ProcessInfo {
                base_info: ProcessInfo {
                    address: self.kernel_info.base,
                    pid: 0,
                    name: String::from_str("ntoskrnl.exe"),
                    path: String::new(),
                    command_line: String::new(),
                    sys_arch: arch,
                    proc_arch: arch,
                },
                dtb: self.sysproc_dtb,
                section_base: Address::null(),
                exit_status: EXIT_STATUS_STILL_ACTIVE,
                ethread: Address::null(),
                wow64: Address::null(),
                teb: None,
                teb_wow64: None,
                peb_native: None,
                peb_wow64: None,
                module_info_native: Some(kernel_modules),
                module_info_wow64: None,
            },
        )
    }
}

impl<T: PhysicalMemory> Win32Kernel<T> {
    /// The structures of the kernel's modules: the walk of the kernel module
    /// list in the kernel's address space.
    pub fn module_address_list(&mut self) -> (r: Result<Vec<Address>, ErrorKind>)
        requires
            old(self).wf(),
        ensures
            final(self).wf(),
            final(self).virt_mem == old(self).virt_mem,
            final(self).kernel_info == old(self).kernel_info,
            old(self).kernel_modules is None && old(self).kernel_image_spec() is Err ==> r is Err
                && r->Err_0 == old(self).kernel_image_spec()->Err_0,
            final(self).kernel_modules is Some ==> {
                let w = final(self).kernel_modules->Some_0.entries_spec(
                    old(self).virt_mem.mem(),
                    &old(self).virt_mem.vat,
                    old(self).virt_mem.dtb.addr,
                    old(self).kernel_info.arch,
                );
                &&& (w.1 is Ok <==> r is Ok)
                &&& w.1 is Err ==> r->Err_0 == w.1->Err_0
                &&& r is Ok ==> r->Ok_0@.len() == w.0.len() && forall|i: int|
                    0 <= i < w.0.len() ==> #[trigger] r->Ok_0@[i].addr == w.0[i]
            },
    {
        let info = match self.kernel_modules() {
            Ok(info) => info,
            Err(e) => {
                return Err(e);
            },
        };
        let (entries, end) = info.module_entry_list(
            &self.virt_mem.phys_mem,
            &self.virt_mem.vat,
            self.virt_mem.dtb,
            self.kernel_info.arch,
        );
        match end {
            Ok(()) => Ok(entries),
            Err(e) => Err(e),
        }
    }
}

/// An optional address.
pub open spec fn opt_addr(o: Option<u64>) -> Option<Address> {
    match o {
        Some(a) => Some(Address { addr: a }),
        None => None,
    }
}

fn to_addr(o: Option<u64>) -> (r: Option<Address>)
    ensures
        r == opt_addr(o),
{
    match o {
        Some(a) => Some(Address::from_u64(a)),
        None => None,
    }
}

} // verus!
