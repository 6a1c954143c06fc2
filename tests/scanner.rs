use memflow::architecture::ArchitectureIdent;
use memflow::error::ErrorKind;
use memflow::kernel::pe_header::{pe_signature, validate_kernel_image};
use memflow::kernel::start_block::x64::find_lowstub;
use memflow::phys_mem::DummyMemory;
use memflow::types::Address;
use memflow::virt_mem::VirtualTranslate;

fn put_u64(mem: &mut [u8], addr: usize, v: u64) {
    mem[addr..addr + 8].copy_from_slice(&v.to_le_bytes());
}

fn lowstub_page(mem: &mut [u8], page: usize) {
    let base = page * 4096;
    put_u64(mem, base, 0x0000_0001_0006_00e9 | 0x1200);
    put_u64(mem, base + 0x70, 0xffff_f800_1234_5000);
    put_u64(mem, base + 0xa0, 0x1ad000);
}

#[test]
fn x64_lowstub_found() {
    let mut mem = vec![0u8; 8 * 4096];
    lowstub_page(&mut mem, 3);
    let sb = find_lowstub(&mem).unwrap();
    assert_eq!(sb.arch, ArchitectureIdent::X86(64, false));
    assert_eq!(sb.dtb, Address::from_u64(0x1ad000));
    assert_eq!(sb.kernel_hint, Address::from_u64(0xffff_f800_1234_5000));
}

#[test]
fn x64_lowstub_first_page_skipped() {
    let mut mem = vec![0u8; 4 * 4096];
    lowstub_page(&mut mem, 0);
    assert_eq!(find_lowstub(&mem).err(), Some(ErrorKind::NotFound));
}

#[test]
fn x64_lowstub_misaligned_table_refused() {
    let mut mem = vec![0u8; 4 * 4096];
    lowstub_page(&mut mem, 1);
    put_u64(&mut mem, 4096 + 0xa0, 0x1ad123);
    assert_eq!(find_lowstub(&mem).err(), Some(ErrorKind::NotFound));
}

fn pe_image() -> Vec<u8> {
    let mut img = vec![0u8; 4096];
    img[0] = b'M';
    img[1] = b'Z';
    img[0x3c..0x40].copy_from_slice(&0x80u32.to_le_bytes());
    img[0x80..0x84].copy_from_slice(b"PE\0\0");
    img
}

#[test]
fn pe_signature_recognised() {
    assert!(pe_signature(&pe_image()));
    let mut bad = pe_image();
    bad[0x81] = b'X';
    assert!(!pe_signature(&bad));
    let mut far = pe_image();
    far[0x3c..0x40].copy_from_slice(&0xfffu32.to_le_bytes());
    assert!(!pe_signature(&far));
    assert!(!pe_signature(&[b'M', b'Z']));
}

#[test]
fn kernel_image_validation() {
    let mut mem = vec![0u8; 0x40_0000];
    put_u64(&mut mem, 0x1000, 0x2000 | 0x3);
    put_u64(&mut mem, 0x2000, 0x3000 | 0x3);
    put_u64(&mut mem, 0x3000, 0x83);
    mem[0x10_0000..0x10_1000].copy_from_slice(&pe_image());
    let mem = DummyMemory::new(mem);
    let vat = VirtualTranslate::new(ArchitectureIdent::X86(64, false)).unwrap();
    let dtb = Address::from_u64(0x1000);
    assert_eq!(validate_kernel_image(&mem, &vat, dtb, Address::from_u64(0x10_0000)), Ok(()));
    assert_eq!(
        validate_kernel_image(&mem, &vat, dtb, Address::from_u64(0x11_0000)),
        Err(ErrorKind::PESignatureMismatch)
    );
    assert_eq!(
        validate_kernel_image(&mem, &vat, dtb, Address::from_u64(0x4000_0000)),
        Err(ErrorKind::PartialData)
    );
}
