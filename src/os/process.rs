//! Processes of a target.

use vstd::prelude::*;

use crate::architecture::ArchitectureIdent;
use crate::error::ErrorKind;
use crate::types::Address;

verus! {

/// A process id.
pub type Pid = u32;

/// The exit code of a process.
pub type ExitCode = i32;

/// Whether a process still runs; `Unknown` where its exit code cannot be told.
#[derive(Clone, Copy, Debug, PartialEq, Eq, Structural)]
pub enum ProcessState {
    Unknown,
    Alive,
    Dead(ExitCode),
}

impl ProcessState {
    pub fn is_alive(&self) -> (r: bool)
        ensures
            r == (*self is Alive),
    {
        match self {
            ProcessState::Alive => true,
            _ => false,
        }
    }

    pub fn is_dead(&self) -> (r: bool)
        ensures
            r == (*self is Dead),
    {
        match self {
            ProcessState::Dead(_) => true,
            _ => false,
        }
    }

    pub fn is_unknown(&self) -> (r: bool)
        ensures
            r == (*self is Unknown),
    {
        match self {
            ProcessState::Unknown => true,
            _ => false,
        }
    }
}

/// What is known of a process without entering its address space.
#[derive(Clone, Debug)]
pub struct ProcessInfo {
    /// Address of the process structure in the kernel's address space
    /// (on Windows its `_EPROCESS`).
    pub address: Address,
    pub pid: Pid,
    pub name: String,
    /// Path of the process binary; empty where it is not read.
    pub path: String,
    /// Command line of the process; empty where it is not read.
    pub command_line: String,
    /// Architecture of the system.
    pub sys_arch: ArchitectureIdent,
    /// Architecture of the process; on a 64-bit system an emulated 32-bit
    /// process has a 32-bit one.
    pub proc_arch: ArchitectureIdent,
}

impl ProcessInfo {
    /// A copy of this information.
    pub fn clone_info(&self) -> (r: ProcessInfo)
        ensures
            r == *self,
    {
        ProcessInfo {
            address: self.address,
            pid: self.pid,
            name: self.name.clone(),
            path: self.path.clone(),
            command_line: self.command_line.clone(),
            sys_arch: self.sys_arch,
            proc_arch: self.proc_arch,
        }
    }
}

/// Where a module's structure lies, and for which architecture it was loaded.
#[derive(Clone, Copy, Debug, PartialEq, Eq, Structural)]
pub struct ModuleAddressInfo {
    pub address: Address,
    pub arch: ArchitectureIdent,
}

/// What a process offers.
pub trait Process {
    /// Whether the state of the process can be read.
    spec fn process_wf(&self) -> bool;

    /// The state of the process.
    fn state(&self) -> ProcessState;

    /// What is known of the process.
    fn info(&self) -> &ProcessInfo;

    /// The module structures of the process: those of `target_arch`, which
    /// is the system's or the process's architecture, or all where it is `None`.
    fn module_address_list(&self, target_arch: Option<ArchitectureIdent>) -> Result<
        Vec<ModuleAddressInfo>,
        ErrorKind,
    >
        requires
            self.process_wf(),
    ;
}

} // verus!
