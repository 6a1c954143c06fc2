//! Offsets into Windows kernel structures, and what is known of a kernel.

use vstd::prelude::*;

use crate::architecture::ArchitectureIdent;
use crate::types::Address;

verus! {

/// Byte offsets of the fields of the kernel structures that are read.
#[derive(Clone, Copy, Debug, PartialEq, Eq, Structural)]
pub struct Win32Offsets {
    /// `_LIST_ENTRY.Blink`.
    pub list_blink: u64,
    /// `_EPROCESS.ActiveProcessLinks`.
    pub eproc_link: u64,
    /// `_KPROCESS.DirectoryTableBase`.
    pub kproc_dtb: u64,
    /// `_EPROCESS.UniqueProcessId`.
    pub eproc_pid: u64,
    /// `_EPROCESS.ImageFileName`.
    pub eproc_name: u64,
    /// `_EPROCESS.Peb`.
    pub eproc_peb: u64,
    /// `_EPROCESS.SectionBaseAddress`.
    pub eproc_section_base: u64,
    /// `_EPROCESS.ExitStatus`.
    pub eproc_exit_status: u64,
    /// `_EPROCESS.ThreadListHead`.
    pub eproc_thread_list: u64,
    /// `_EPROCESS.Wow64Process`; zero where the kernel has none.
    pub eproc_wow64: u64,
    /// `_KTHREAD.Teb`.
    pub kthread_teb: u64,
    /// `_ETHREAD.ThreadListEntry`.
    pub ethread_list_entry: u64,
    /// `_TEB32.ProcessEnvironmentBlock`.
    pub teb_peb_x86: u64,
}

/// A Windows version: major, minor and build number.
#[derive(Clone, Copy, Debug, PartialEq, Eq, Structural)]
pub struct Win32Version {
    pub major: u32,
    pub minor: u32,
    pub build: u32,
}

impl Win32Version {
    pub open spec fn at_least_spec(self, major: u32, minor: u32) -> bool {
        self.major > major || (self.major == major && self.minor >= minor)
    }

    /// Whether this version is `major.minor` or later.
    pub fn at_least(self, major: u32, minor: u32) -> (r: bool)
        ensures
            r == self.at_least_spec(major, minor),
    {
        self.major > major || (self.major == major && self.minor >= minor)
    }
}

/// What the scan of physical memory found of the kernel.
#[derive(Clone, Copy, Debug, PartialEq, Eq, Structural)]
pub struct Win32KernelInfo {
    pub arch: ArchitectureIdent,
    /// Directory table base found by the scan.
    pub dtb: Address,
    /// Base and size of the kernel image.
    pub base: Address,
    pub size: u64,
    /// Address of the System process's `_EPROCESS`.
    pub eprocess_base: Address,
    pub kernel_winver: Win32Version,
}

} // verus!
