//! Exports of PE images, looked up by pelite.

use vstd::prelude::*;

use crate::endian::{le2, le4};
use crate::error::ErrorKind;

verus! {

/// pelite's error type, carried through opaque.
#[verifier::external_type_specification]
#[verifier::external_body]
pub struct ExPeError(pelite::Error);

/// What looking up the export `name` in the PE image `image` gives, where the
/// lookup succeeds: `Some(Some(rva))` for an exported symbol at `rva`,
/// `Some(None)` for an export forwarded to another image.
pub uninterp spec fn pe_export_of(image: Seq<u8>, name: Seq<char>) -> Option<Option<u32>>;

/// The little-endian 32-bit value at byte `i` of `b`.
pub open spec fn u32_at(b: Seq<u8>, i: int) -> u32 {
    le4(b[i], b[i + 1], b[i + 2], b[i + 3])
}

/// Whether the export directory entry that the headers may hold at byte `off`
/// (`VirtualAddress`, then `Size`) has a sum that does not fit in 32 bits.
pub open spec fn dir_entry_overflows(image: Seq<u8>, off: int) -> bool {
    0 <= off && off + 8 <= image.len() && u32_at(image, off) as int + u32_at(image, off + 4) as int
        > u32::MAX as int
}

/// The optional-header magic of `image`, where its headers hold one:
/// 0x10b for PE32, 0x20b for PE32+.
pub open spec fn optional_magic(image: Seq<u8>) -> Option<u16> {
    let off = u32_at(image, 0x3c) as int + 24;
    if image.len() >= 0x40 && off + 2 <= image.len() {
        Some(le2(image[off], image[off + 1]))
    } else {
        None
    }
}

/// Whether the export directory entry of `image`, at the place its optional
/// header's magic gives it (PE32 or PE32+), has a bound that does not fit in
/// 32 bits. pelite adds the two unchecked, which panics in a debug build.
/// An image of neither magic never reaches the export directory.
pub open spec fn export_dir_overflows(image: Seq<u8>) -> bool {
    let nt = u32_at(image, 0x3c) as int;
    match optional_magic(image) {
        Some(m) => if m == 0x20b {
            dir_entry_overflows(image, nt + 24 + 112)
        } else if m == 0x10b {
            dir_entry_overflows(image, nt + 24 + 96)
        } else {
            false
        },
        None => false,
    }
}

/// The 32-bit value at byte `i` of `image`.
fn read_u32_at(image: &[u8], i: usize) -> (r: u32)
    requires
        i + 4 <= image@.len(),
    ensures
        r == u32_at(image@, i as int),
{
    (image[i] as u32) | ((image[i + 1] as u32) << 8) | ((image[i + 2] as u32) << 16) | ((
    image[i + 3] as u32) << 24)
}

/// Whether the entry at byte `off` overflows, for an offset that may lie anywhere.
fn entry_overflows(image: &[u8], off: u64) -> (r: bool)
    ensures
        r == dir_entry_overflows(image@, off as int),
{
    let len = image.len();
    if off > len as u64 || (len as u64) - off < 8 {
        return false;
    }
    let o = off as usize;
    let va = read_u32_at(image, o);
    let size = read_u32_at(image, o + 4);
    va as u64 + size as u64 > u32::MAX as u64
}

/// Whether the export directory entry of `image` has a bound that does not fit in 32 bits.
pub fn export_dir_overflow(image: &[u8]) -> (r: bool)
    ensures
        r == export_dir_overflows(image@),
{
    let len = image.len();
    if len < 0x40 {
        return false;
    }
    let nt = read_u32_at(image, 0x3c) as u64;
    if nt + 24 + 2 > len as u64 {
        return false;
    }
    let off = (nt + 24) as usize;
    let magic = (image[off] as u16) | ((image[off + 1] as u16) << 8);
    if magic == 0x20b {
        entry_overflows(image, nt + 24 + 112)
    } else if magic == 0x10b {
        entry_overflows(image, nt + 24 + 96)
    } else {
        false
    }
}

/// Relies on pelite's `PeView::from_bytes` and `get_export_by_name`, read
/// through `Export::symbol`: the export named `name` of the mapped image
/// `image`, or pelite's error where the image does not parse or the lookup
/// fails. Where it succeeds the result depends on the bytes and the name
/// alone; whether it succeeds also depends on where the buffer lies (pelite
/// refuses a buffer that is not 4-aligned), so nothing is claimed of failure.
/// An export directory whose `VirtualAddress + Size` does not fit in 32 bits
/// makes pelite overflow, which the precondition excludes.
#[verifier::external_body]
pub(crate) fn pe_export_by_name(image: &[u8], name: &str) -> (r: Result<Option<u32>, pelite::Error>)
    requires
        !export_dir_overflows(image@),
    ensures
        r is Ok ==> pe_export_of(image@, name@) == Some(r->Ok_0),
{
    match pelite::PeView::from_bytes(image) {
        Ok(pe) => match pe.get_export_by_name(name) {
            Ok(export) => Ok(export.symbol()),
            Err(e) => Err(e),
        },
        Err(e) => Err(e),
    }
}

/// The relative address of the exported symbol `name` in the mapped image
/// `image`. `PE` where the export directory's bound overflows or pelite
/// cannot look the export up, `ForwardedExport` where it is forwarded.
pub fn export_rva(image: &[u8], name: &str) -> (r: Result<u32, ErrorKind>)
    ensures
        export_dir_overflows(image@) ==> r == Err::<u32, ErrorKind>(ErrorKind::PE),
        r is Ok ==> pe_export_of(image@, name@) == Some(Some(r->Ok_0)),
        r == Err::<u32, ErrorKind>(ErrorKind::ForwardedExport) ==> pe_export_of(image@, name@)
            == Some(None::<u32>),
        r is Err ==> r->Err_0 == ErrorKind::PE || r->Err_0 == ErrorKind::ForwardedExport,
{
    if export_dir_overflow(image) {
        return Err(ErrorKind::PE);
    }
    match pe_export_by_name(image, name) {
        Ok(Some(rva)) => Ok(rva),
        Ok(None) => Err(ErrorKind::ForwardedExport),
        Err(_) => Err(ErrorKind::PE),
    }
}

} // verus!
