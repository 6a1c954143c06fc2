//! Gathering what opening a kernel needs.

use vstd::prelude::*;

use super::kernel::Win32Kernel;
use super::offsets::{Win32KernelInfo, Win32Offsets};
use crate::error::ErrorKind;
use crate::phys_mem::PhysicalMemory;

verus! {

/// Collects the physical memory, what the scan found of the kernel and the
/// offsets of its structures, then opens the kernel.
pub struct Win32KernelBuilder<T> {
    pub connector: T,
    pub kernel_info: Option<Win32KernelInfo>,
    pub offsets: Option<Win32Offsets>,
}

impl<T: PhysicalMemory> Win32KernelBuilder<T> {
    pub fn new(connector: T) -> (r: Self)
        ensures
            r.connector == connector,
            r.kernel_info is None,
            r.offsets is None,
    {
        Win32KernelBuilder { connector, kernel_info: None, offsets: None }
    }

    pub fn kernel_info(self, kernel_info: Win32KernelInfo) -> (r: Self)
        ensures
            r.connector == self.connector,
            r.kernel_info == Some(kernel_info),
            r.offsets == self.offsets,
    {
        Win32KernelBuilder { connector: self.connector, kernel_info: Some(kernel_info), offsets: self.offsets }
    }

    pub fn offsets(self, offsets: Win32Offsets) -> (r: Self)
        ensures
            r.connector == self.connector,
            r.kernel_info == self.kernel_info,
            r.offsets == Some(offsets),
    {
        Win32KernelBuilder { connector: self.connector, kernel_info: self.kernel_info, offsets: Some(offsets) }
    }

    /// Opens the kernel: `NotFound` without kernel information,
    /// `OffsetsNotFound` without offsets, `InvalidArchitecture` where the
    /// architecture is no x86 of 32 or 64 bits and no AArch64.
    pub fn build(self) -> (r: Result<Win32Kernel<T>, ErrorKind>)
        ensures
            self.kernel_info is None ==> r is Err && r->Err_0 == ErrorKind::NotFound,
            self.kernel_info is Some && self.offsets is None ==> r is Err && r->Err_0
                == ErrorKind::OffsetsNotFound,
            self.kernel_info is Some && self.offsets is Some ==> {
                let info = self.kernel_info->Some_0;
                &&& (r is Ok <==> info.arch.has_layout())
                &&& r is Err ==> r->Err_0 == ErrorKind::InvalidArchitecture
                &&& r is Ok ==> {
                    let k = r->Ok_0;
                    &&& k.opened()
                    &&& k.virt_mem.phys_mem == self.connector
                    &&& k.offsets == self.offsets->Some_0
                    &&& k.kernel_info == info
                    &&& k.kernel_modules is None
                    &&& k.sysproc_dtb.addr == k.sysproc_dtb_spec()
                }
            },
    {
        let kernel_info = match self.kernel_info {
            Some(i) => i,
            None => {
                return Err(ErrorKind::NotFound);
            },
        };
        let offsets = match self.offsets {
            Some(o) => o,
            None => {
                return Err(ErrorKind::OffsetsNotFound);
            },
        };
        if !kernel_info.arch.is_valid() {
            return Err(ErrorKind::InvalidArchitecture);
        }
        Ok(Win32Kernel::new(self.connector, offsets, kernel_info))
    }
}

impl<T: PhysicalMemory> Win32Kernel<T> {
    /// A builder over the physical memory `connector`.
    pub fn builder(connector: T) -> (r: Win32KernelBuilder<T>)
        ensures
            r.connector == connector,
            r.kernel_info is None,
            r.offsets is None,
    {
        Win32KernelBuilder::new(connector)
    }
}

} // verus!
