use memflow::error::ErrorKind;
use memflow::kernel::start_block::aarch64::{find, PHYS_BASE};
use memflow::architecture::ArchitectureIdent;
use memflow::types::Address;

fn put_u64(mem: &mut [u8], addr: usize, v: u64) {
    mem[addr..addr + 8].copy_from_slice(&v.to_le_bytes());
}

/// A top table for the page at index `page`, with `kernel` kernel entries
/// and, if `self_ref`, an entry that maps the table itself.
fn table(mem: &mut [u8], page: usize, self_ref: bool, kernel: usize) {
    let base = page * 4096;
    let addr = PHYS_BASE + (page as u64) * 4096;
    put_u64(mem, base, 0xf03 | (0x2000 << 12));
    let mut slot = 0x800;
    if self_ref {
        put_u64(mem, base + slot, addr | 0xf03);
        slot += 8;
    }
    for i in 0..kernel {
        put_u64(mem, base + slot, ((0x10 + i as u64) << 12) | 0x703);
        slot += 8;
    }
}

#[test]
fn aarch64_dtb_found() {
    let mut mem = vec![0u8; 4 * 4096];
    table(&mut mem, 2, true, 6);
    let sb = find(&mem).unwrap();
    assert_eq!(sb.dtb, Address::from_u64(PHYS_BASE + 2 * 4096));
    assert_eq!(sb.arch, ArchitectureIdent::AArch64);
    assert_eq!(sb.kernel_hint, Address::null());
}

#[test]
fn aarch64_dtb_without_self_ref() {
    let mut mem = vec![0u8; 4 * 4096];
    table(&mut mem, 2, false, 6);
    assert_eq!(find(&mem).err(), Some(ErrorKind::NotFound));
}

#[test]
fn aarch64_dtb_with_five_kernel_entries() {
    let mut mem = vec![0u8; 4 * 4096];
    table(&mut mem, 2, true, 5);
    assert_eq!(find(&mem).err(), Some(ErrorKind::NotFound));
}

#[test]
fn aarch64_dtb_first_page_wins() {
    let mut mem = vec![0u8; 4 * 4096];
    table(&mut mem, 1, true, 7);
    table(&mut mem, 3, true, 6);
    assert_eq!(find(&mem).unwrap().dtb, Address::from_u64(PHYS_BASE + 4096));
}

#[test]
fn aarch64_dtb_first_entry_too_high() {
    let mut mem = vec![0u8; 2 * 4096];
    table(&mut mem, 0, true, 6);
    put_u64(&mut mem, 0, 0xf03 | 0x0000_8100_0000_0000);
    assert!(find(&mem).is_err());
}
