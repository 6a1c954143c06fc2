//! Memory introspection core: page-table layouts and walking, address-space
//! reads over a physical memory model, and Windows kernel structure walking.

pub mod types;
pub mod endian;
pub mod mmu_spec;
pub mod architecture;
pub mod error;
pub mod phys_mem;
pub mod translate;
pub mod virt_mem;
pub mod kernel;
pub mod os;
pub mod win32;
