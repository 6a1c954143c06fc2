//! The full name of a process: `_EPROCESS` keeps fifteen characters of it,
//! the module list of the process has all of it.

use vstd::prelude::*;

use super::kernel::Win32Kernel;
use super::module::{module_entry_spec, module_info_from_entry};
use super::process::Win32ProcessInfo;
use super::text::{chars_of, utf16_lossy, utf8_lossy};
use crate::error::ErrorKind;
use crate::os::process::ProcessInfo;
use crate::phys_mem::PhysicalMemory;
use crate::types::Address;
use crate::architecture::ArchitectureIdent;

verus! {

/// Whether the text `s` starts with the text `prefix`.
pub open spec fn chars_start_with(s: Seq<char>, prefix: Seq<char>) -> bool {
    prefix.len() <= s.len() && s.subrange(0, prefix.len() as int) == prefix
}

fn starts_with(s: &Vec<char>, prefix: &Vec<char>) -> (r: bool)
    ensures
        r == chars_start_with(s@, prefix@),
{
    if prefix.len() > s.len() {
        return false;
    }
    let mut i: usize = 0;
    while i < prefix.len()
        invariant
            prefix@.len() <= s@.len(),
            i <= prefix@.len(),
            forall|j: int| 0 <= j < i ==> s@[j] == prefix@[j],
        decreases prefix@.len() - i,
    {
        if s[i] != prefix[i] {
            assert(s@.subrange(0, prefix@.len() as int)[i as int] != prefix@[i as int]);
            return false;
        }
        i = i + 1;
    }
    assert(s@.subrange(0, prefix@.len() as int) =~= prefix@);
    true
}

impl<T: PhysicalMemory> Win32Kernel<T> {
    /// The name found by scanning the module entries `entries[i..]` in the
    /// address space at `dtb`: that of the first module whose name starts with
    /// `prefix`. A module that reads only in part is passed over; any other
    /// failure ends the scan without a name.
    pub open spec fn name_scan_spec(
        &self,
        entries: Seq<u64>,
        i: nat,
        prefix: Seq<char>,
        dtb: u64,
        arch: ArchitectureIdent,
    ) -> Option<Seq<u16>>
        decreases entries.len() - i,
    {
        if i >= entries.len() {
            None
        } else {
            match module_entry_spec(self.virt_mem.mem(), &self.virt_mem.vat, dtb, arch, entries[i as int]) {
                Ok((_, _, _, name)) => if chars_start_with(utf16_lossy(name), prefix) {
                    Some(name)
                } else {
                    self.name_scan_spec(entries, i + 1, prefix, dtb, arch)
                },
                Err(e) => if e == ErrorKind::PartialData {
                    self.name_scan_spec(entries, i + 1, prefix, dtb, arch)
                } else {
                    None
                },
            }
        }
    }

    /// The full name of the process `info`: that of the first module of its
    /// native list whose name starts with `prefix`, where there is one.
    pub open spec fn fullname_spec(&self, info: &Win32ProcessInfo, prefix: Seq<char>) -> Option<
        Seq<u16>,
    > {
        match info.module_info_native {
            None => None,
            Some(list) => self.name_scan_spec(
                list.entries_spec(
                    self.virt_mem.mem(),
                    &self.virt_mem.vat,
                    info.dtb.addr,
                    info.base_info.sys_arch,
                ).0,
                0,
                prefix,
                info.dtb.addr,
                info.base_info.sys_arch,
            ),
        }
    }

    /// Replaces the name of the process `info`, which `_EPROCESS` cuts to
    /// fifteen characters, with the name of the first module of its native
    /// list that starts with it; keeps the name where there is none. The list
    /// is walked as far as it reads.
    pub fn process_info_fullname(&self, info: Win32ProcessInfo) -> (r: Win32ProcessInfo)
        requires
            self.wf(),
        ensures
            self.fullname_spec(&info, info.base_info.name@) is None ==> r == info,
            self.fullname_spec(&info, info.base_info.name@) is Some ==> r.base_info.name@ == utf16_lossy(
                self.fullname_spec(&info, info.base_info.name@)->Some_0,
            ) && r == (Win32ProcessInfo {
                base_info: ProcessInfo { name: r.base_info.name, ..info.base_info },
                ..info
            }),
    {
        let list = match info.module_info_native {
            Some(l) => l,
            None => {
                return info;
            },
        };
        let prefix = chars_of(info.base_info.name.as_str());
        let sys_arch = info.base_info.sys_arch;
        let (entries, _) = list.module_entry_list(
            &self.virt_mem.phys_mem,
            &self.virt_mem.vat,
            info.dtb,
            sys_arch,
        );
        let ghost es = list.entries_spec(self.virt_mem.mem(), &self.virt_mem.vat, info.dtb.addr, sys_arch).0;
        let mut i: usize = 0;
        while i < entries.len()
            invariant
                self.wf(),
                i <= entries@.len(),
                entries@.len() == es.len(),
                forall|j: int| 0 <= j < entries@.len() ==> #[trigger] entries@[j].addr == es[j],
                self.fullname_spec(&info, info.base_info.name@) == self.name_scan_spec(es, i as nat, prefix@, info.dtb.addr, sys_arch),
                info.module_info_native == Some(list),
                sys_arch == info.base_info.sys_arch,
            decreases entries@.len() - i,
        {
            assert(entries@[i as int].addr == es[i as int]);
            match module_info_from_entry(
                &self.virt_mem.phys_mem,
                &self.virt_mem.vat,
                info.dtb,
                sys_arch,
                entries[i],
                info.base_info.address,
            ) {
                Ok((module, _)) => {
                    if starts_with(&chars_of(module.name.as_str()), &prefix) {
                        let mut info = info;
                        info.base_info.name = module.name;
                        return info;
                    }
                },
                Err(e) => {
                    if e != ErrorKind::PartialData {
                        return info;
                    }
                },
            }
            i = i + 1;
        }
        info
    }
}

/// What is read of a process depends on its base information only through
/// its address and architectures.
proof fn lemma_process_info_spec_fields<T: PhysicalMemory>(
    k: &Win32Kernel<T>,
    b1: ProcessInfo,
    b2: ProcessInfo,
)
    requires
        b1.address == b2.address,
        b1.sys_arch == b2.sys_arch,
        b1.proc_arch == b2.proc_arch,
    ensures
        k.process_info_spec(b1) is Ok <==> k.process_info_spec(b2) is Ok,
        k.process_info_spec(b1) is Err ==> k.process_info_spec(b1)->Err_0 == k.process_info_spec(
            b2,
        )->Err_0,
        k.process_info_spec(b1) is Ok ==> k.process_info_spec(b1)->Ok_0 == (Win32ProcessInfo {
            base_info: b1,
            ..k.process_info_spec(b2)->Ok_0
        }),
{
}

impl<T: PhysicalMemory> Win32Kernel<T> {
    /// The name of the process `info` after completion: the full module name
    /// where everything about the process reads and its module list has one,
    /// the name from `_EPROCESS` (`name`) otherwise.
    pub open spec fn completed_name_spec(&self, info: ProcessInfo, name: Seq<u8>) -> Seq<char> {
        match self.process_info_spec(info) {
            Ok(pi) => match self.fullname_spec(&pi, utf8_lossy(name)) {
                Some(n) => utf16_lossy(n),
                None => utf8_lossy(name),
            },
            Err(_) => utf8_lossy(name),
        }
    }

    /// What is known of the process whose `_EPROCESS` is at `address`: its
    /// id, architectures and name, the name completed from its module list.
    pub fn process_info_by_address(&self, address: Address) -> (r: Result<ProcessInfo, ErrorKind>)
        requires
            self.wf(),
        ensures
            r is Ok <==> self.base_info_spec(address.addr) is Ok,
            r is Err ==> r->Err_0 == self.base_info_spec(address.addr)->Err_0,
            r is Ok ==> {
                let (pid, name, proc_arch) = self.base_info_spec(address.addr)->Ok_0;
                let info = r->Ok_0;
                &&& info.address == address
                &&& info.pid == pid
                &&& info.sys_arch == self.kernel_info.arch
                &&& info.proc_arch == proc_arch
                &&& info.path@.len() == 0
                &&& info.command_line@.len() == 0
                &&& info.name@ == self.completed_name_spec(info, name)
            },
    {
        let base = match self.process_info_base_by_address(address) {
            Ok(b) => b,
            Err(e) => {
                return Err(e);
            },
        };
        let copy = base.clone_info();
        let ghost b = base;
        match self.process_info_from_base_info(base) {
            Ok(pi) => {
                let full = self.process_info_fullname(pi);
                let info = full.base_info;
                proof {
                    lemma_process_info_spec_fields(self, info, b);
                }
                Ok(info)
            },
            Err(_) => {
                proof {
                    lemma_process_info_spec_fields(self, copy, b);
                }
                Ok(copy)
            },
        }
    }
}

} // verus!
