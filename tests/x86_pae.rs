use memflow::architecture::x86_pae::{self, get_mmu_spec};
use memflow::types::{make_bit_mask, Address, Endianess, Length};

#[test]
fn x86_pae_pte_bitmasks() {
    let mmu = get_mmu_spec();
    let mask_addr = Address::invalid();
    assert_eq!(mmu.pte_addr_mask(mask_addr, 0), make_bit_mask(5, 35));
    assert_eq!(mmu.pte_addr_mask(mask_addr, 1), make_bit_mask(12, 35));
    assert_eq!(mmu.pte_addr_mask(mask_addr, 2), make_bit_mask(12, 35));
}

#[test]
fn x86_pae_pte_leaf_size() {
    let mmu = get_mmu_spec();
    assert_eq!(mmu.pt_leaf_size(0), Length::from(32));
    assert_eq!(mmu.pt_leaf_size(1), Length::from_kb(4));
}

#[test]
fn x86_pae_page_size_level() {
    let mmu = get_mmu_spec();
    assert_eq!(mmu.page_size_level(1), Length::from_kb(4));
    assert_eq!(mmu.page_size_level(2), Length::from_mb(2));
}

#[test]
fn x86_pae_mask_bit_values() {
    assert_eq!(make_bit_mask(5, 35), 0x0000_000f_ffff_ffe0);
    assert_eq!(make_bit_mask(12, 35), 0x0000_000f_ffff_f000);
    assert_eq!(make_bit_mask(0, 63), u64::MAX);
}

#[test]
fn x86_pae_mask_keeps_address_drops_flags() {
    let mmu = get_mmu_spec();
    let pte = Address::from_u64(0x8000_0001_2345_6067);
    assert_eq!(mmu.pte_addr_mask(pte, 1), 0x1_2345_6000);
    assert_eq!(mmu.pte_addr_mask(pte, 0), 0x1_2345_6060);
}

#[test]
fn x86_pae_module_functions() {
    assert_eq!(x86_pae::bits(), 32);
    assert_eq!(x86_pae::endianess(), Endianess::LittleEndian);
    assert_eq!(x86_pae::len_addr(), Length::from(4));
    assert_eq!(x86_pae::page_size(), Length::from_kb(4));
    assert_eq!(x86_pae::page_size_level(1), Length::from_kb(4));
    assert_eq!(x86_pae::page_size_level(2), Length::from_mb(2));
    assert_eq!(x86_pae::page_size_level(3), Length::from_gb(1));
}

#[test]
fn x86_pae_table_index_and_bit_range() {
    let mmu = get_mmu_spec();
    assert_eq!(mmu.virt_addr_bit_range(0), (30, 32));
    assert_eq!(mmu.virt_addr_bit_range(1), (21, 30));
    assert_eq!(mmu.virt_addr_bit_range(3), (0, 12));
    let v = Address::from_u64(0xc060_3123);
    assert_eq!(mmu.virt_addr_to_page_table_index(v, 0), 3);
    assert_eq!(mmu.virt_addr_to_page_table_index(v, 1), 3);
    assert_eq!(mmu.virt_addr_to_page_table_index(v, 2), 3);
}

#[test]
fn x86_pae_leaf_steps() {
    let mmu = get_mmu_spec();
    let large = Address::from_u64(0x83);
    let small = Address::from_u64(0x03);
    assert!(!mmu.valid_leaf_at(large, 0));
    assert!(mmu.valid_leaf_at(large, 1));
    assert!(!mmu.valid_leaf_at(small, 1));
    assert!(mmu.valid_leaf_at(small, 2));
    assert!(mmu.pte_present(small));
    assert!(mmu.pte_writeable(small));
    assert!(!mmu.pte_nx(small));
    assert!(mmu.pte_nx(Address::from_u64(1 << 63)));
}
