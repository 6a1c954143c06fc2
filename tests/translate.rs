use memflow::architecture::{aarch64, x64, ArchitectureIdent};
use memflow::error::ErrorKind;
use memflow::phys_mem::{phys_read_batch, DummyMemory, PhysicalMemory};
use memflow::translate::{translate_batch, virt_to_phys, TranslationRequest};
use memflow::types::{Address, Endianess};
use memflow::virt_mem::{virt_read_cstr, virt_read_raw, VirtualTranslate};

fn put_u64(mem: &mut [u8], addr: usize, v: u64) {
    mem[addr..addr + 8].copy_from_slice(&v.to_le_bytes());
}

/// PML4 at 0x1a000; the entry for 0xFFFFF80000000000 leads through a PDPT at
/// 0x1b000 and a PD at 0x1c000 to a 2 MiB page at 0x200000.
fn x64_large_page_memory() -> Vec<u8> {
    let mut mem = vec![0u8; 0x40_0000];
    put_u64(&mut mem, 0x1a000 + 0x1f0 * 8, 0x1b000 | 0x3);
    put_u64(&mut mem, 0x1b000, 0x1c000 | 0x3);
    put_u64(&mut mem, 0x1c000, 0x20_0000 | 0x83);
    mem
}

#[test]
fn x64_translation_large_page() {
    let mem = DummyMemory::new(x64_large_page_memory());
    let mmu = x64::get_mmu_spec();
    let r = virt_to_phys(
        &mem,
        &mmu,
        Endianess::LittleEndian,
        Address::from_u64(0x1a000),
        Address::from_u64(0xFFFF_F800_0000_0000),
    )
    .unwrap();
    assert_eq!(r.address, Address::from_u64(0x20_0000));
    assert_eq!(r.page_size, 0x20_0000);

    let r = virt_to_phys(
        &mem,
        &mmu,
        Endianess::LittleEndian,
        Address::from_u64(0x1a000),
        Address::from_u64(0xFFFF_F800_0012_3456),
    )
    .unwrap();
    assert_eq!(r.address, Address::from_u64(0x32_3456));
    assert_eq!(r.address.as_u64() & (r.page_size - 1), 0x12_3456);
}

#[test]
fn translation_top_entry_not_present() {
    let mem = DummyMemory::new(x64_large_page_memory());
    let mmu = x64::get_mmu_spec();
    let r = virt_to_phys(
        &mem,
        &mmu,
        Endianess::LittleEndian,
        Address::from_u64(0x1a000),
        Address::from_u64(0x0000_0000_0040_0000),
    );
    assert_eq!(r, Err(ErrorKind::PageNotPresent));
}

#[test]
fn translation_table_outside_memory() {
    let mem = DummyMemory::new(vec![0u8; 0x1000]);
    let mmu = x64::get_mmu_spec();
    let r = virt_to_phys(
        &mem,
        &mmu,
        Endianess::LittleEndian,
        Address::from_u64(0x1a000),
        Address::from_u64(0x1000),
    );
    assert_eq!(r, Err(ErrorKind::PhysicalReadFailed));
}

#[test]
fn translation_batch_keeps_tags() {
    let mem = DummyMemory::new(x64_large_page_memory());
    let mmu = x64::get_mmu_spec();
    let reqs = vec![
        TranslationRequest { vaddr: Address::from_u64(0xFFFF_F800_0000_1000), tag: 7 },
        TranslationRequest { vaddr: Address::from_u64(0x1000), tag: 3 },
    ];
    let out = translate_batch(&mem, &mmu, Endianess::LittleEndian, Address::from_u64(0x1a000), &reqs);
    assert_eq!(out.len(), 2);
    assert_eq!(out[0].tag, 7);
    assert_eq!(out[0].result.unwrap().address, Address::from_u64(0x20_1000));
    assert_eq!(out[1].tag, 3);
    assert_eq!(out[1].result, Err(ErrorKind::PageNotPresent));
}

/// 4 KiB pages: virtual 0x7000_0000 maps to physical 0x30_0000, the page
/// after it is not present.
fn x64_small_page_memory() -> Vec<u8> {
    let mut mem = vec![0u8; 0x40_0000];
    let v: u64 = 0x7000_0000;
    put_u64(&mut mem, 0x1000 + (((v >> 39) & 0x1ff) as usize) * 8, 0x2000 | 0x3);
    put_u64(&mut mem, 0x2000 + (((v >> 30) & 0x1ff) as usize) * 8, 0x3000 | 0x3);
    put_u64(&mut mem, 0x3000 + (((v >> 21) & 0x1ff) as usize) * 8, 0x4000 | 0x3);
    put_u64(&mut mem, 0x4000 + (((v >> 12) & 0x1ff) as usize) * 8, 0x30_0000 | 0x3);
    for i in 0..0x1000 {
        mem[0x30_0000 + i] = (i % 251) as u8 + 1;
    }
    mem
}

#[test]
fn virt_read_partial_page() {
    let mem = DummyMemory::new(x64_small_page_memory());
    let vat = VirtualTranslate::new(ArchitectureIdent::X86(64, false)).unwrap();
    let v = 0x7000_0000u64;
    let r = virt_read_raw(&mem, &vat, Address::from_u64(0x1000), Address::from_u64(v), 8192);
    let partial = match r {
        Ok(_) => panic!("the second page must fail"),
        Err(p) => p,
    };
    assert_eq!(partial.data.len(), 8192);
    for i in 0..4096 {
        assert_eq!(partial.data[i], (i % 251) as u8 + 1);
    }
    assert!(partial.data[4096..].iter().all(|&b| b == 0));
    assert_eq!(partial.unreadable, vec![(v + 4096, 4096)]);
}

#[test]
fn virt_read_unaligned_within_page() {
    let mem = DummyMemory::new(x64_small_page_memory());
    let vat = VirtualTranslate::new(ArchitectureIdent::X86(64, false)).unwrap();
    let r = virt_read_raw(&mem, &vat, Address::from_u64(0x1000), Address::from_u64(0x7000_0010), 16)
        .unwrap();
    assert_eq!(r.len(), 16);
    assert_eq!(r[0], 0x11);
}

#[test]
fn virt_read_length_always_kept() {
    let mem = DummyMemory::new(x64_small_page_memory());
    let vat = VirtualTranslate::new(ArchitectureIdent::X86(64, false)).unwrap();
    for &n in &[0usize, 1, 4095, 4096, 4097, 3 * 4096 + 5] {
        let len = match virt_read_raw(&mem, &vat, Address::from_u64(0x1000), Address::from_u64(0x6fff_f800), n) {
            Ok(d) => d.len(),
            Err(p) => p.data.len(),
        };
        assert_eq!(len, n);
    }
}

#[test]
fn cstr_reads() {
    let mut raw = x64_small_page_memory();
    raw[0x30_0100..0x30_0106].copy_from_slice(b"hello\0");
    raw[0x30_0200] = 0;
    for i in 0..32 {
        raw[0x30_0300 + i] = b'a';
    }
    let mem = DummyMemory::new(raw);
    let vat = VirtualTranslate::new(ArchitectureIdent::X86(64, false)).unwrap();
    let dtb = Address::from_u64(0x1000);
    assert_eq!(
        virt_read_cstr(&mem, &vat, dtb, Address::from_u64(0x7000_0100), 16).unwrap(),
        b"hello".to_vec()
    );
    assert_eq!(
        virt_read_cstr(&mem, &vat, dtb, Address::from_u64(0x7000_0200), 16).unwrap(),
        Vec::<u8>::new()
    );
    assert_eq!(
        virt_read_cstr(&mem, &vat, dtb, Address::from_u64(0x7000_0300), 16),
        Err(ErrorKind::InvalidString)
    );
    assert_eq!(
        virt_read_cstr(&mem, &vat, dtb, Address::from_u64(0x7000_0ff8), 16),
        Err(ErrorKind::PartialData)
    );
}

#[test]
fn dummy_memory_bounds() {
    let mem = DummyMemory::new(vec![1, 2, 3, 4]);
    assert_eq!(mem.phys_read_raw(1, 2), Ok(vec![2, 3]));
    assert_eq!(mem.phys_read_raw(3, 2), Err(ErrorKind::OutOfBounds));
}

#[test]
fn architecture_without_layout() {
    assert!(VirtualTranslate::new(ArchitectureIdent::X86(16, false)).is_err());
    assert!(VirtualTranslate::new(ArchitectureIdent::AArch64).is_ok());
    assert!(VirtualTranslate::new(ArchitectureIdent::X86(32, true)).is_ok());
    assert_eq!(ArchitectureIdent::X86(32, true).size_addr(), 4);
    assert_eq!(ArchitectureIdent::AArch64.bits(), 64);
}

#[test]
fn phys_batch_reads_each_range() {
    let mem = DummyMemory::new(vec![1, 2, 3, 4, 5]);
    let out = phys_read_batch(&mem, &vec![(0, 2), (4, 2), (3, 2)]);
    assert_eq!(out, vec![Ok(vec![1, 2]), Err(ErrorKind::OutOfBounds), Ok(vec![4, 5])]);
}

#[test]
fn translation_batch_mixed_depths() {
    let mem = DummyMemory::new(x64_small_page_memory());
    let mmu = x64::get_mmu_spec();
    let reqs = vec![
        TranslationRequest { vaddr: Address::from_u64(0x7000_0abc), tag: 1 },
        TranslationRequest { vaddr: Address::from_u64(0x7000_1000), tag: 2 },
        TranslationRequest { vaddr: Address::from_u64(0x1234), tag: 3 },
        TranslationRequest { vaddr: Address::from_u64(0x7000_0000), tag: 4 },
    ];
    let out = translate_batch(&mem, &mmu, Endianess::LittleEndian, Address::from_u64(0x1000), &reqs);
    assert_eq!(out.len(), 4);
    assert_eq!(out[0].tag, 1);
    assert_eq!(out[0].result.unwrap().address, Address::from_u64(0x30_0abc));
    assert_eq!(out[0].result.unwrap().page_size, 4096);
    assert_eq!(out[1].result, Err(ErrorKind::PageNotPresent));
    assert_eq!(out[2].result, Err(ErrorKind::PageNotPresent));
    assert_eq!(out[3].result.unwrap().address, Address::from_u64(0x30_0000));
    for (r, q) in out.iter().zip(reqs.iter()) {
        assert_eq!(r.tag, q.tag);
        let single = virt_to_phys(&mem, &mmu, Endianess::LittleEndian, Address::from_u64(0x1000), q.vaddr);
        assert_eq!(r.result, single);
    }
}

#[test]
fn aarch64_block_and_page_translation() {
    let mut mem = vec![0u8; 0x40_0000];
    // L0[0] -> L1 table, L1[0] -> L2 table, L2[1] a 2 MiB block, L2[0] -> L3 table
    put_u64(&mut mem, 0x1000, 0x2000 | 0x3);
    put_u64(&mut mem, 0x2000, 0x3000 | 0x3);
    put_u64(&mut mem, 0x3008, 0x20_0000 | 0x701);
    put_u64(&mut mem, 0x3000, 0x4000 | 0x3);
    put_u64(&mut mem, 0x4000 + 5 * 8, 0x35_0000 | 0x703);
    let mem = DummyMemory::new(mem);
    let mmu = aarch64::get_mmu_spec();
    let dtb = Address::from_u64(0x1000);
    let block = virt_to_phys(&mem, &mmu, Endianess::LittleEndian, dtb, Address::from_u64(0x21_2345)).unwrap();
    assert_eq!(block.address, Address::from_u64(0x21_2345));
    assert_eq!(block.page_size, 0x20_0000);
    let page = virt_to_phys(&mem, &mmu, Endianess::LittleEndian, dtb, Address::from_u64(0x5123)).unwrap();
    assert_eq!(page.address, Address::from_u64(0x35_0123));
    assert_eq!(page.page_size, 4096);
}

#[test]
fn cstr_ends_before_unreadable_page() {
    let mut raw = x64_small_page_memory();
    raw[0x30_0ffc..0x30_1000].copy_from_slice(b"abc\0");
    let mem = DummyMemory::new(raw);
    let vat = VirtualTranslate::new(ArchitectureIdent::X86(64, false)).unwrap();
    let dtb = Address::from_u64(0x1000);
    assert_eq!(
        virt_read_cstr(&mem, &vat, dtb, Address::from_u64(0x7000_0ffc), 16).unwrap(),
        b"abc".to_vec()
    );
}
