//! Errors of the library.

use vstd::prelude::*;

verus! {

/// What went wrong.
#[derive(Clone, Copy, Debug, PartialEq, Eq, Structural)]
pub enum ErrorKind {
    /// The architecture has no layout, or its pointer width is unknown.
    InvalidArchitecture,
    /// No structure offsets are known for the kernel.
    OffsetsNotFound,
    /// A page-table entry on the way is not present.
    PageNotPresent,
    /// A page-table entry is malformed.
    InvalidPTE,
    /// A physical read lies beyond the end of physical memory.
    OutOfBounds,
    /// The page table could not be read.
    PhysicalReadFailed,
    /// The physical memory source failed.
    IOFailed,
    /// Some bytes of a virtual read could not be read.
    PartialData,
    /// A linked list in the target does not end.
    ListCorrupted,
    /// A string has no terminator within its bound.
    InvalidString,
    /// An image is not a valid PE image.
    PESignatureMismatch,
    /// An image could not be parsed as PE, or lacks an export.
    PE,
    /// An export is forwarded to another image.
    ForwardedExport,
    /// Nothing matched the search.
    NotFound,
    ProcessNotFound,
    ModuleNotFound,
    ImportNotFound,
    ExportNotFound,
}

} // verus!
