//! What is read of a Windows process.

use vstd::prelude::*;

use crate::architecture::ArchitectureIdent;
use crate::error::ErrorKind;
use super::kernel::Win32Kernel;
use super::process_list::{WalkEvent, WalkState, WalkStop};
use super::module::{module_entry_spec, module_info_from_entry};
use super::text::utf16_lossy;
use crate::os::module::ModuleInfo;
use crate::os::process::{ExitCode, ModuleAddressInfo, Process, ProcessInfo, ProcessState};
use crate::phys_mem::PhysicalMemory;
use crate::types::Address;
use crate::virt_mem::{read_addr_spec, virt_read_addr_arch, VirtualTranslate};
use vstd::wrapping::u64_specs::wrapping_add;

verus! {

/// The exit status of a process that still runs (`STILL_ACTIVE`).
pub const EXIT_STATUS_STILL_ACTIVE: i32 = 259;

/// Characters of `_EPROCESS.ImageFileName`.
pub const IMAGE_FILE_NAME_LENGTH: usize = 15;

/// Where a module list starts: the head of a `_LIST_ENTRY` ring.
#[derive(Clone, Copy, Debug, PartialEq, Eq, Structural)]
pub struct Win32ModuleListInfo {
    pub module_base: Address,
}

/// Offset of `Ldr` in the `_PEB` of an architecture of `bits` bits.
pub open spec fn peb_ldr_offset(bits: u8) -> u64 {
    if bits == 64 {
        0x18
    } else {
        0xc
    }
}

/// Offset of `InLoadOrderModuleList` in the `_PEB_LDR_DATA` of an architecture of `bits` bits.
pub open spec fn ldr_list_offset(bits: u8) -> u64 {
    if bits == 64 {
        0x10
    } else {
        0xc
    }
}

/// The module list of the process environment block at `peb`, in the address
/// space at `dtb`, for pointers of `arch`.
pub open spec fn module_list_at_peb_spec(
    m: Seq<u8>,
    vat: &VirtualTranslate,
    dtb: u64,
    peb: u64,
    arch: ArchitectureIdent,
) -> Result<Win32ModuleListInfo, ErrorKind> {
    match read_addr_spec(m, vat, dtb, arch.bits_spec(), wrapping_add(peb, peb_ldr_offset(arch.bits_spec()))) {
        Ok(ldr) => Ok(
            Win32ModuleListInfo {
                module_base: Address { addr: wrapping_add(ldr, ldr_list_offset(arch.bits_spec())) },
            },
        ),
        Err(e) => Err(e),
    }
}

impl Win32ModuleListInfo {
    /// The module list whose head is at `module_base`.
    pub fn with_base(module_base: Address) -> (r: Win32ModuleListInfo)
        ensures
            r.module_base == module_base,
    {
        Win32ModuleListInfo { module_base }
    }

    /// The module list of the process environment block at `peb`: the
    /// `InLoadOrderModuleList` of its loader data.
    pub fn with_peb<T: PhysicalMemory>(
        mem: &T,
        vat: &VirtualTranslate,
        dtb: Address,
        peb: Address,
        arch: ArchitectureIdent,
    ) -> (r: Result<Win32ModuleListInfo, ErrorKind>)
        requires
            vat.wf(),
        ensures
            r == module_list_at_peb_spec(mem.phys_view(), vat, dtb.addr, peb.addr, arch),
    {
        let (ldr_off, list_off): (u64, u64) = if arch.bits() == 64 {
            (0x18, 0x10)
        } else {
            (0xc, 0xc)
        };
        match virt_read_addr_arch(mem, vat, dtb, arch, Address::from_u64(peb.addr.wrapping_add(ldr_off))) {
            Ok(ldr) => Ok(Win32ModuleListInfo::with_base(Address::from_u64(ldr.addr.wrapping_add(list_off)))),
            Err(e) => Err(e),
        }
    }
}

/// Most entries a walk of a module list visits.
pub const MAX_MODULE_ITER_COUNT: usize = 65536;

/// The walk of a module list from the entry `entry`, with at most `fuel`
/// entries left: the entries passed, and how it ends. The head itself is no
/// module; the walk ends at a null or misaligned link or back at the head.
pub open spec fn module_walk_spec(
    m: Seq<u8>,
    vat: &VirtualTranslate,
    dtb: u64,
    arch: ArchitectureIdent,
    head: u64,
    entry: u64,
    fuel: nat,
) -> (Seq<u64>, Result<(), ErrorKind>)
    decreases fuel,
{
    if fuel == 0 {
        (Seq::empty(), Err(ErrorKind::ListCorrupted))
    } else {
        match read_addr_spec(m, vat, dtb, arch.bits_spec(), entry) {
            Err(e) => (Seq::empty(), Err(e)),
            Ok(next) => if next == 0 || next & 7 != 0 || next == head {
                (Seq::empty(), Ok(()))
            } else {
                let rest = module_walk_spec(m, vat, dtb, arch, head, next, (fuel - 1) as nat);
                (seq![next] + rest.0, rest.1)
            },
        }
    }
}

impl Win32ModuleListInfo {
    /// The walk of this module list in the address space at `dtb`, with pointers of `arch`.
    pub open spec fn entries_spec(
        &self,
        m: Seq<u8>,
        vat: &VirtualTranslate,
        dtb: u64,
        arch: ArchitectureIdent,
    ) -> (Seq<u64>, Result<(), ErrorKind>) {
        module_walk_spec(
            m,
            vat,
            dtb,
            arch,
            self.module_base.addr,
            self.module_base.addr,
            MAX_MODULE_ITER_COUNT as nat,
        )
    }

    /// Walks the module list: the address of each `_LDR_DATA_TABLE_ENTRY`
    /// after the head, and how the walk ended (`ListCorrupted` after
    /// `MAX_MODULE_ITER_COUNT` entries, the read error where a link cannot be read).
    pub fn module_entry_list<T: PhysicalMemory>(
        &self,
        mem: &T,
        vat: &VirtualTranslate,
        dtb: Address,
        arch: ArchitectureIdent,
    ) -> (r: (Vec<Address>, Result<(), ErrorKind>))
        requires
            vat.wf(),
        ensures
            r.0@.len() == self.entries_spec(mem.phys_view(), vat, dtb.addr, arch).0.len(),
            forall|i: int|
                0 <= i < r.0@.len() ==> #[trigger] r.0@[i].addr == self.entries_spec(
                    mem.phys_view(),
                    vat,
                    dtb.addr,
                    arch,
                ).0[i],
            r.1 == self.entries_spec(mem.phys_view(), vat, dtb.addr, arch).1,
    {
        let ghost m = mem.phys_view();
        let head = self.module_base.addr;
        let mut entry = head;
        let mut out: Vec<Address> = Vec::new();
        let ghost emitted: Seq<u64> = Seq::empty();
        let ghost total = self.entries_spec(m, vat, dtb.addr, arch);
        let mut n: usize = 0;
        while n < MAX_MODULE_ITER_COUNT
            invariant
                vat.wf(),
                m == mem.phys_view(),
                head == self.module_base.addr,
                total == self.entries_spec(m, vat, dtb.addr, arch),
                n <= MAX_MODULE_ITER_COUNT,
                out@.len() == emitted.len(),
                forall|i: int| 0 <= i < out@.len() ==> #[trigger] out@[i].addr == emitted[i],
                emitted + module_walk_spec(
                    m,
                    vat,
                    dtb.addr,
                    arch,
                    head,
                    entry,
                    (MAX_MODULE_ITER_COUNT - n) as nat,
                ).0 == total.0,
                module_walk_spec(m, vat, dtb.addr, arch, head, entry, (MAX_MODULE_ITER_COUNT - n) as nat).1
                    == total.1,
            decreases MAX_MODULE_ITER_COUNT - n,
        {
            let ghost fuel = (MAX_MODULE_ITER_COUNT - n) as nat;
            let next = match virt_read_addr_arch(mem, vat, dtb, arch, Address::from_u64(entry)) {
                Ok(a) => a.addr,
                Err(e) => {
                    assert(emitted + Seq::<u64>::empty() =~= emitted);
                    return (out, Err(e));
                },
            };
            if next == 0 || next & 7 != 0 || next == head {
                assert(emitted + Seq::<u64>::empty() =~= emitted);
                return (out, Ok(()));
            }
            out.push(Address::from_u64(next));
            proof {
                let rest = module_walk_spec(m, vat, dtb.addr, arch, head, next, (fuel - 1) as nat);
                assert(emitted + (seq![next] + rest.0) =~= emitted.push(next) + rest.0);
                emitted = emitted.push(next);
            }
            entry = next;
            n = n + 1;
        }
        assert(emitted + Seq::<u64>::empty() =~= emitted);
        (out, Err(ErrorKind::ListCorrupted))
    }
}

/// A process and the addresses of its structures.
#[derive(Clone, Debug)]
pub struct Win32ProcessInfo {
    pub base_info: ProcessInfo,
    /// Directory table base of the process's address space.
    pub dtb: Address,
    pub section_base: Address,
    pub exit_status: ExitCode,
    /// The first thread of the process.
    pub ethread: Address,
    /// `_EPROCESS.Wow64Process`; null for a native process.
    pub wow64: Address,
    pub teb: Option<Address>,
    pub teb_wow64: Option<Address>,
    pub peb_native: Option<Address>,
    pub peb_wow64: Option<Address>,
    pub module_info_native: Option<Win32ModuleListInfo>,
    pub module_info_wow64: Option<Win32ModuleListInfo>,
}

impl Win32ProcessInfo {
    /// Alive while the exit status is `STILL_ACTIVE`, dead with it otherwise.
    pub fn state(&self) -> (r: ProcessState)
        ensures
            self.exit_status == EXIT_STATUS_STILL_ACTIVE ==> r == ProcessState::Alive,
            self.exit_status != EXIT_STATUS_STILL_ACTIVE ==> r == ProcessState::Dead(
                self.exit_status,
            ),
    {
        if self.exit_status == EXIT_STATUS_STILL_ACTIVE {
            ProcessState::Alive
        } else {
            ProcessState::Dead(self.exit_status)
        }
    }
}

/// The entries of a finished module walk, each with the architecture `arch`.
pub open spec fn tagged(entries: Seq<u64>, arch: ArchitectureIdent) -> Seq<ModuleAddressInfo> {
    entries.map_values(|a: u64| ModuleAddressInfo { address: Address { addr: a }, arch })
}

/// A process, with the kernel it was found through.
pub struct Win32Process<T> {
    pub kernel: Win32Kernel<T>,
    pub proc_info: Win32ProcessInfo,
}

impl<T: PhysicalMemory> Win32Process<T> {
    pub open spec fn wf(&self) -> bool {
        self.kernel.wf()
    }

    /// The module structures of one list, read in the process's address space.
    pub open spec fn one_list_spec(&self, info: Win32ModuleListInfo, arch: ArchitectureIdent) -> Result<
        Seq<ModuleAddressInfo>,
        ErrorKind,
    > {
        let w = info.entries_spec(
            self.kernel.virt_mem.mem(),
            &self.kernel.virt_mem.vat,
            self.proc_info.dtb.addr,
            arch,
        );
        match w.1 {
            Ok(_) => Ok(tagged(w.0, arch)),
            Err(e) => Err(e),
        }
    }

    /// The module structures for `target_arch`: the native list for the
    /// system's architecture, the emulated list for the process's, both (native
    /// first) for `None`; `ModuleNotFound` where the process has no such list.
    pub open spec fn module_list_spec(&self, target_arch: Option<ArchitectureIdent>) -> Result<
        Seq<ModuleAddressInfo>,
        ErrorKind,
    > {
        let sys = self.proc_info.base_info.sys_arch;
        let proc = self.proc_info.base_info.proc_arch;
        let native = self.proc_info.module_info_native;
        let wow64 = self.proc_info.module_info_wow64;
        match target_arch {
            Some(t) => if t == sys && native is Some {
                self.one_list_spec(native->Some_0, sys)
            } else if t == proc && wow64 is Some {
                self.one_list_spec(wow64->Some_0, proc)
            } else {
                Err(ErrorKind::ModuleNotFound)
            },
            None => {
                let first = match native {
                    Some(i) => self.one_list_spec(i, sys),
                    None => Ok(Seq::empty()),
                };
                match first {
                    Err(e) => Err(e),
                    Ok(a) => match wow64 {
                        Some(i) => match self.one_list_spec(i, proc) {
                            Err(e) => Err(e),
                            Ok(b) => Ok(a + b),
                        },
                        None => Ok(a),
                    },
                }
            },
        }
    }

    /// The process `proc_info`, read through `kernel`.
    pub fn with_kernel(kernel: Win32Kernel<T>, proc_info: Win32ProcessInfo) -> (r: Self)
        ensures
            r.kernel == kernel,
            r.proc_info == proc_info,
    {
        Win32Process { kernel, proc_info }
    }

    /// Reads one module list and tags its entries with `arch`.
    fn read_one_list(&self, info: Win32ModuleListInfo, arch: ArchitectureIdent, out: &mut Vec<
        ModuleAddressInfo,
    >) -> (r: Result<(), ErrorKind>)
        requires
            self.wf(),
        ensures
            r is Ok <==> self.one_list_spec(info, arch) is Ok,
            r is Ok ==> final(out)@ == old(out)@ + self.one_list_spec(info, arch)->Ok_0,
            r is Err ==> r->Err_0 == self.one_list_spec(info, arch)->Err_0,
    {
        let (entries, end) = info.module_entry_list(
            &self.kernel.virt_mem.phys_mem,
            &self.kernel.virt_mem.vat,
            self.proc_info.dtb,
            arch,
        );
        match end {
            Err(e) => {
                return Err(e);
            },
            Ok(()) => {},
        }
        let ghost start = out@;
        let ghost w = info.entries_spec(
            self.kernel.virt_mem.mem(),
            &self.kernel.virt_mem.vat,
            self.proc_info.dtb.addr,
            arch,
        );
        let mut i: usize = 0;
        while i < entries.len()
            invariant
                i <= entries@.len(),
                entries@.len() == w.0.len(),
                forall|j: int| 0 <= j < entries@.len() ==> #[trigger] entries@[j].addr == w.0[j],
                out@ == start + tagged(w.0, arch).subrange(0, i as int),
            decreases entries@.len() - i,
        {
            out.push(ModuleAddressInfo { address: entries[i], arch });
            proof {
                assert(tagged(w.0, arch)[i as int] == ModuleAddressInfo {
                    address: Address { addr: w.0[i as int] },
                    arch,
                });
                assert(entries@[i as int].addr == w.0[i as int]);
                assert(entries@[i as int] == Address { addr: w.0[i as int] });
                assert(tagged(w.0, arch).subrange(0, i + 1) =~= tagged(w.0, arch).subrange(0, i as int).push(
                    ModuleAddressInfo { address: entries@[i as int], arch },
                ));
            }
            i = i + 1;
        }
        assert(tagged(w.0, arch).subrange(0, i as int) =~= tagged(w.0, arch));
        Ok(())
    }

    /// The module structures for `target_arch`: see `module_list_spec`.
    pub fn module_list_arch(&self, target_arch: Option<ArchitectureIdent>) -> (r: Result<
        Vec<ModuleAddressInfo>,
        ErrorKind,
    >)
        requires
            self.wf(),
        ensures
            r is Ok <==> self.module_list_spec(target_arch) is Ok,
            r is Ok ==> r->Ok_0@ == self.module_list_spec(target_arch)->Ok_0,
            r is Err ==> r->Err_0 == self.module_list_spec(target_arch)->Err_0,
    {
        let sys = self.proc_info.base_info.sys_arch;
        let proc = self.proc_info.base_info.proc_arch;
        let mut out: Vec<ModuleAddressInfo> = Vec::new();
        match target_arch {
            Some(t) => {
                let chosen = if t == sys && self.proc_info.module_info_native.is_some() {
                    Some((self.proc_info.module_info_native.unwrap(), sys))
                } else if t == proc && self.proc_info.module_info_wow64.is_some() {
                    Some((self.proc_info.module_info_wow64.unwrap(), proc))
                } else {
                    None
                };
                match chosen {
                    Some((info, arch)) => match self.read_one_list(info, arch, &mut out) {
                        Ok(()) => {
                            assert(out@ =~= Seq::<ModuleAddressInfo>::empty() + self.one_list_spec(info, arch)->Ok_0);
                            Ok(out)
                        },
                        Err(e) => Err(e),
                    },
                    None => Err(ErrorKind::ModuleNotFound),
                }
            },
            None => {
                match self.proc_info.module_info_native {
                    Some(info) => match self.read_one_list(info, sys, &mut out) {
                        Ok(()) => {},
                        Err(e) => {
                            return Err(e);
                        },
                    },
                    None => {},
                }
                assert(out@.len() == 0 ==> out@ =~= Seq::<ModuleAddressInfo>::empty());
                match self.proc_info.module_info_wow64 {
                    Some(info) => match self.read_one_list(info, proc, &mut out) {
                        Ok(()) => {},
                        Err(e) => {
                            return Err(e);
                        },
                    },
                    None => {},
                }
                Ok(out)
            },
        }
    }
}

impl<T: PhysicalMemory> Win32Process<T> {
    /// The first module of `list[i..]` whose name is `name`; a module that
    /// reads only in part is passed over, any other failure ends the search.
    pub open spec fn name_search_spec(&self, list: Seq<ModuleAddressInfo>, i: nat, name: Seq<char>) -> Option<
        int,
    >
        decreases list.len() - i,
    {
        if i >= list.len() {
            None
        } else {
            match module_entry_spec(
                self.kernel.virt_mem.mem(),
                &self.kernel.virt_mem.vat,
                self.proc_info.dtb.addr,
                list[i as int].arch,
                list[i as int].address.addr,
            ) {
                Ok((_, _, _, n)) => if utf16_lossy(n) == name {
                    Some(i as int)
                } else {
                    self.name_search_spec(list, i + 1, name)
                },
                Err(e) => if e == ErrorKind::PartialData {
                    self.name_search_spec(list, i + 1, name)
                } else {
                    None
                },
            }
        }
    }

    /// What the module structure `entry` holds: image base, image size, full
    /// path and name.
    #[verifier::opaque]
    pub open spec fn entry_spec(&self, entry: ModuleAddressInfo) -> Result<
        (u64, u32, Seq<u16>, Seq<u16>),
        ErrorKind,
    > {
        module_entry_spec(
            self.kernel.virt_mem.mem(),
            &self.kernel.virt_mem.vat,
            self.proc_info.dtb.addr,
            entry.arch,
            entry.address.addr,
        )
    }

    /// Whether `info` is what reading the module structure `entry` gives.
    pub open spec fn module_read_as(&self, entry: ModuleAddressInfo, info: ModuleInfo) -> bool {
        let spec = self.entry_spec(entry);
        &&& spec is Ok
        &&& info.address == entry.address
        &&& info.arch == entry.arch
        &&& info.parent_process == self.proc_info.base_info.address
        &&& info.base.addr == spec->Ok_0.0
        &&& info.size == spec->Ok_0.1
        &&& info.path@ == utf16_lossy(spec->Ok_0.2)
        &&& info.name@ == utf16_lossy(spec->Ok_0.3)
    }

    /// Reads the module whose structure is `entry`.
    fn read_entry(&self, entry: ModuleAddressInfo) -> (r: Result<ModuleInfo, ErrorKind>)
        requires
            self.wf(),
        ensures
            r is Ok <==> self.entry_spec(entry) is Ok,
            r is Err ==> r->Err_0 == self.entry_spec(entry)->Err_0,
            r is Ok ==> self.module_read_as(entry, r->Ok_0),
    {
        reveal(Win32Process::entry_spec);
        match module_info_from_entry(
            &self.kernel.virt_mem.phys_mem,
            &self.kernel.virt_mem.vat,
            self.proc_info.dtb,
            entry.arch,
            entry.address,
            self.proc_info.base_info.address,
        ) {
            Ok((info, _)) => Ok(info),
            Err(e) => Err(e),
        }
    }

    /// The module structures of `list[i..]` whose modules read: one that reads
    /// only in part is passed over, any other failure ends the list.
    pub open spec fn readable_modules_spec(&self, list: Seq<ModuleAddressInfo>, i: nat) -> Seq<
        ModuleAddressInfo,
    >
        decreases list.len() - i,
    {
        if i >= list.len() {
            Seq::empty()
        } else {
            match self.entry_spec(list[i as int]) {
                Ok(_) => seq![list[i as int]] + self.readable_modules_spec(list, i + 1),
                Err(e) => if e == ErrorKind::PartialData {
                    self.readable_modules_spec(list, i + 1)
                } else {
                    Seq::empty()
                },
            }
        }
    }

    /// The modules of `target_arch` (all where it is `None`), each read from
    /// its structure, in list order: a module that reads only in part is
    /// passed over, any other failure ends the list there.
    pub fn module_info_list(&self, target_arch: Option<ArchitectureIdent>) -> (r: Result<
        Vec<ModuleInfo>,
        ErrorKind,
    >)
        requires
            self.wf(),
        ensures
            self.module_list_spec(target_arch) is Err ==> r is Err && r->Err_0 == self.module_list_spec(
                target_arch,
            )->Err_0,
            self.module_list_spec(target_arch) is Ok ==> r is Ok && {
                let read = self.readable_modules_spec(self.module_list_spec(target_arch)->Ok_0, 0);
                &&& r->Ok_0@.len() == read.len()
                &&& forall|k: int|
                    0 <= k < read.len() ==> self.module_read_as(read[k], #[trigger] r->Ok_0@[k])
            },
    {
        let list = match self.module_list_arch(target_arch) {
            Ok(l) => l,
            Err(e) => {
                return Err(e);
            },
        };
        let ghost all = self.readable_modules_spec(list@, 0);
        let ghost got: Seq<ModuleAddressInfo> = Seq::empty();
        let mut out: Vec<ModuleInfo> = Vec::new();
        let mut i: usize = 0;
        while i < list.len()
            invariant
                self.wf(),
                i <= list@.len(),
                self.module_list_spec(target_arch) is Ok,
                list@ == self.module_list_spec(target_arch)->Ok_0,
                all == self.readable_modules_spec(list@, 0),
                all == got + self.readable_modules_spec(list@, i as nat),
                out@.len() == got.len(),
                forall|k: int| 0 <= k < got.len() ==> self.module_read_as(got[k], #[trigger] out@[k]),
            decreases list@.len() - i,
        {
            let entry = list[i];
            match self.read_entry(entry) {
                Ok(info) => {
                    proof {
                        let rest = self.readable_modules_spec(list@, (i + 1) as nat);
                        assert(got + (seq![entry] + rest) =~= got.push(entry) + rest);
                        got = got.push(entry);
                    }
                    out.push(info);
                },
                Err(e) => {
                    if e != ErrorKind::PartialData {
                        assert(got + Seq::<ModuleAddressInfo>::empty() =~= got);
                        return Ok(out);
                    }
                },
            }
            i = i + 1;
        }
        assert(got + Seq::<ModuleAddressInfo>::empty() =~= got);
        Ok(out)
    }

    /// Enumerates the modules of `target_arch` (all where it is `None`) as
    /// `module_info_list` reads them, handing each to `callback` as it is
    /// read; after the first module for which `callback` returns `false` the
    /// walk stops, before any further read. Returns the modules handed over
    /// and the state the walk stopped in: `User` at the callback's request,
    /// `End` where the list ran out, `IOError` where the list itself did not read.
    pub fn module_info_list_callback<F: Fn(&ModuleInfo) -> bool>(
        &self,
        target_arch: Option<ArchitectureIdent>,
        callback: F,
    ) -> (r: (Vec<ModuleInfo>, WalkState))
        requires
            self.wf(),
            forall|m: &ModuleInfo| callback.requires((m,)),
        ensures
            r.1 is Stopped,
            self.module_list_spec(target_arch) is Err ==> r.0@.len() == 0 && r.1 == WalkState::Stopped(
                WalkStop::IOError(self.module_list_spec(target_arch)->Err_0),
            ),
            self.module_list_spec(target_arch) is Ok ==> {
                let read = self.readable_modules_spec(self.module_list_spec(target_arch)->Ok_0, 0);
                &&& r.0@.len() <= read.len()
                &&& forall|k: int|
                    0 <= k < r.0@.len() ==> self.module_read_as(read[k], #[trigger] r.0@[k])
                &&& forall|k: int|
                    0 <= k < r.0@.len() - 1 ==> callback.ensures((&#[trigger] r.0@[k],), true)
                &&& r.1 == WalkState::Stopped(WalkStop::User) ==> r.0@.len() >= 1
                    && callback.ensures((&r.0@[r.0@.len() - 1],), false)
                &&& r.1 != WalkState::Stopped(WalkStop::User) ==> r.1 == WalkState::Stopped(
                    WalkStop::End,
                ) && r.0@.len() == read.len() && (r.0@.len() > 0 ==> callback.ensures(
                    (&r.0@[r.0@.len() - 1],),
                    true,
                ))
            },
    {
        let mut state = WalkState::Init.next(WalkEvent::Start);
        let list = match self.module_list_arch(target_arch) {
            Ok(l) => l,
            Err(e) => {
                state = state.next(WalkEvent::ReadErr(e));
                return (Vec::new(), state);
            },
        };
        let ghost all = self.readable_modules_spec(list@, 0);
        let ghost got: Seq<ModuleAddressInfo> = Seq::empty();
        let mut out: Vec<ModuleInfo> = Vec::new();
        let mut i: usize = 0;
        while i < list.len()
            invariant
                self.wf(),
                state == WalkState::Walking,
                forall|m: &ModuleInfo| callback.requires((m,)),
                i <= list@.len(),
                self.module_list_spec(target_arch) is Ok,
                list@ == self.module_list_spec(target_arch)->Ok_0,
                all == self.readable_modules_spec(list@, 0),
                all == got + self.readable_modules_spec(list@, i as nat),
                out@.len() == got.len(),
                forall|k: int| 0 <= k < got.len() ==> self.module_read_as(got[k], #[trigger] out@[k]),
                forall|k: int| 0 <= k < out@.len() ==> callback.ensures((&#[trigger] out@[k],), true),
            decreases list@.len() - i,
        {
            let entry = list[i];
            match self.read_entry(entry) {
                Ok(info) => {
                    let go_on = callback(&info);
                    proof {
                        let rest = self.readable_modules_spec(list@, (i + 1) as nat);
                        assert(got + (seq![entry] + rest) =~= got.push(entry) + rest);
                        got = got.push(entry);
                    }
                    out.push(info);
                    if !go_on {
                        state = state.next(WalkEvent::CallbackStop);
                        return (out, state);
                    }
                },
                Err(e) => {
                    if e != ErrorKind::PartialData {
                        assert(got + Seq::<ModuleAddressInfo>::empty() =~= got);
                        state = state.next(WalkEvent::SentinelReached);
                        return (out, state);
                    }
                },
            }
            i = i + 1;
        }
        assert(got + Seq::<ModuleAddressInfo>::empty() =~= got);
        state = state.next(WalkEvent::SentinelReached);
        (out, state)
    }

    /// Finds the module named `name` among the modules of `architecture`
    /// (all where it is `None`): the first one in list order. `ModuleNotFound`
    /// where the search ends without it.
    pub fn module_by_name_arch(&self, name: &str, architecture: Option<ArchitectureIdent>) -> (r: Result<
        ModuleInfo,
        ErrorKind,
    >)
        requires
            self.wf(),
        ensures
            self.module_list_spec(architecture) is Err ==> r is Err && r->Err_0 == self.module_list_spec(
                architecture,
            )->Err_0,
            self.module_list_spec(architecture) is Ok ==> {
                let list = self.module_list_spec(architecture)->Ok_0;
                match self.name_search_spec(list, 0, name@) {
                    Some(i) => r is Ok && r->Ok_0.address == list[i].address && r->Ok_0.arch
                        == list[i].arch && r->Ok_0.name@ == name@ && r->Ok_0.parent_process
                        == self.proc_info.base_info.address && {
                        let (base, size, path, _) = module_entry_spec(
                            self.kernel.virt_mem.mem(),
                            &self.kernel.virt_mem.vat,
                            self.proc_info.dtb.addr,
                            list[i].arch,
                            list[i].address.addr,
                        )->Ok_0;
                        r->Ok_0.base.addr == base && r->Ok_0.size == size && r->Ok_0.path@
                            == utf16_lossy(path)
                    },
                    None => r == Err::<ModuleInfo, ErrorKind>(ErrorKind::ModuleNotFound),
                }
            },
    {
        let list = match self.module_list_arch(architecture) {
            Ok(l) => l,
            Err(e) => {
                return Err(e);
            },
        };
        let wanted = String::from_str(name);
        let mut i: usize = 0;
        while i < list.len()
            invariant
                self.wf(),
                self.module_list_spec(architecture) is Ok,
                list@ == self.module_list_spec(architecture)->Ok_0,
                wanted@ == name@,
                i <= list@.len(),
                self.name_search_spec(list@, 0, name@) == self.name_search_spec(list@, i as nat, name@),
            decreases list@.len() - i,
        {
            let entry = list[i];
            match module_info_from_entry(
                &self.kernel.virt_mem.phys_mem,
                &self.kernel.virt_mem.vat,
                self.proc_info.dtb,
                entry.arch,
                entry.address,
                self.proc_info.base_info.address,
            ) {
                Ok((info, _)) => {
                    if info.name == wanted {
                        return Ok(info);
                    }
                },
                Err(e) => {
                    if e != ErrorKind::PartialData {
                        return Err(ErrorKind::ModuleNotFound);
                    }
                },
            }
            i = i + 1;
        }
        Err(ErrorKind::ModuleNotFound)
    }

    /// Finds the module named `name` among all modules of the process.
    pub fn module_by_name(&self, name: &str) -> (r: Result<ModuleInfo, ErrorKind>)
        requires
            self.wf(),
        ensures
            self.module_list_spec(None) is Err ==> r is Err && r->Err_0 == self.module_list_spec(
                None,
            )->Err_0,
            self.module_list_spec(None) is Ok ==> {
                let list = self.module_list_spec(None)->Ok_0;
                match self.name_search_spec(list, 0, name@) {
                    Some(i) => r is Ok && r->Ok_0.address == list[i].address && r->Ok_0.arch
                        == list[i].arch && r->Ok_0.name@ == name@ && r->Ok_0.parent_process
                        == self.proc_info.base_info.address && {
                        let (base, size, path, _) = module_entry_spec(
                            self.kernel.virt_mem.mem(),
                            &self.kernel.virt_mem.vat,
                            self.proc_info.dtb.addr,
                            list[i].arch,
                            list[i].address.addr,
                        )->Ok_0;
                        r->Ok_0.base.addr == base && r->Ok_0.size == size && r->Ok_0.path@
                            == utf16_lossy(path)
                    },
                    None => r == Err::<ModuleInfo, ErrorKind>(ErrorKind::ModuleNotFound),
                }
            },
    {
        self.module_by_name_arch(name, None)
    }
}

impl<T: PhysicalMemory> Process for Win32Process<T> {
    open spec fn process_wf(&self) -> bool {
        self.wf()
    }

    fn state(&self) -> ProcessState {
        self.proc_info.state()
    }

    fn info(&self) -> &ProcessInfo {
        &self.proc_info.base_info
    }

    fn module_address_list(&self, target_arch: Option<ArchitectureIdent>) -> Result<
        Vec<ModuleAddressInfo>,
        ErrorKind,
    > {
        self.module_list_arch(target_arch)
    }
}

} // verus!
