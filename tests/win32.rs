use memflow::architecture::ArchitectureIdent;
use memflow::error::ErrorKind;
use memflow::os::instance::OsInstanceBuilder;
use memflow::os::process::{ModuleAddressInfo, Process, ProcessState};
use memflow::phys_mem::DummyMemory;
use memflow::types::Address;
use memflow::win32::kernel::Win32Kernel;
use memflow::win32::process_list::{WalkEvent, WalkState, WalkStop};
use memflow::win32::offsets::{Win32KernelInfo, Win32Offsets, Win32Version};
use memflow::virt_mem::VirtualTranslate;
use memflow::win32::module::module_info_from_entry;
use memflow::win32::pe::{export_dir_overflow, export_rva};
use memflow::os::module::ModuleInfo;
use memflow::win32::process::{Win32ModuleListInfo, EXIT_STATUS_STILL_ACTIVE};

const DTB: u64 = 0x1000;
const SYSTEM: u64 = 0x10000;
const PROC_A: u64 = 0x20000;
const HEAD: u64 = 0x30000;

fn offsets() -> Win32Offsets {
    Win32Offsets {
        list_blink: 8,
        eproc_link: 0x188,
        kproc_dtb: 0x28,
        eproc_pid: 0x180,
        eproc_name: 0x2e0,
        eproc_peb: 0x3f8,
        eproc_section_base: 0x3c0,
        eproc_exit_status: 0x444,
        eproc_thread_list: 0x488,
        eproc_wow64: 0x420,
        kthread_teb: 0xf0,
        ethread_list_entry: 0x6a8,
        teb_peb_x86: 0x30,
    }
}

fn kernel_info() -> Win32KernelInfo {
    Win32KernelInfo {
        arch: ArchitectureIdent::X86(64, false),
        dtb: Address::from_u64(DTB),
        base: Address::from_u64(0x100000),
        size: 0x1000,
        eprocess_base: Address::from_u64(SYSTEM),
        kernel_winver: Win32Version { major: 10, minor: 0, build: 19041 },
    }
}

fn put_u64(mem: &mut [u8], addr: u64, v: u64) {
    let a = addr as usize;
    mem[a..a + 8].copy_from_slice(&v.to_le_bytes());
}

fn put_u32(mem: &mut [u8], addr: u64, v: u32) {
    let a = addr as usize;
    mem[a..a + 4].copy_from_slice(&v.to_le_bytes());
}

/// 4 MiB of physical memory, mapped one to one at virtual 0 through two
/// 2 MiB pages; the System process links to process A, which links to the
/// list head, which links back to System.
fn memory() -> Vec<u8> {
    let mut mem = vec![0u8; 0x40_0000];
    put_u64(&mut mem, DTB, 0x2000 | 0x3);
    put_u64(&mut mem, 0x2000, 0x3000 | 0x3);
    put_u64(&mut mem, 0x3000, 0x83);
    put_u64(&mut mem, 0x3008, 0x20_0000 | 0x83);
    let o = offsets();
    // System
    put_u64(&mut mem, SYSTEM + o.eproc_link, PROC_A + o.eproc_link);
    put_u64(&mut mem, SYSTEM + o.eproc_link + 8, HEAD);
    put_u32(&mut mem, SYSTEM + o.eproc_pid, 4);
    mem[(SYSTEM + o.eproc_name) as usize..(SYSTEM + o.eproc_name) as usize + 7]
        .copy_from_slice(b"System\0");
    put_u64(&mut mem, SYSTEM + o.kproc_dtb, 0x5000);
    // A
    put_u64(&mut mem, PROC_A + o.eproc_link, HEAD);
    put_u64(&mut mem, PROC_A + o.eproc_link + 8, SYSTEM + o.eproc_link);
    put_u32(&mut mem, PROC_A + o.eproc_pid, 1234);
    let long = b"averylongprocessname.exe";
    mem[(PROC_A + o.eproc_name) as usize..(PROC_A + o.eproc_name) as usize + long.len()]
        .copy_from_slice(long);
    // head
    put_u64(&mut mem, HEAD, SYSTEM + o.eproc_link);
    put_u64(&mut mem, HEAD + 8, PROC_A + o.eproc_link);
    mem
}

fn open(mem: Vec<u8>) -> Win32Kernel<DummyMemory> {
    Win32Kernel::new(DummyMemory::new(mem), offsets(), kernel_info())
}

#[test]
fn process_list_walk() {
    let k = open(memory());
    let (list, end) = k.process_address_list();
    assert_eq!(list, vec![Address::from_u64(SYSTEM), Address::from_u64(PROC_A)]);
    assert_eq!(end, Ok(()));
}

#[test]
fn process_list_self_link_stops() {
    let mut mem = memory();
    let o = offsets();
    put_u64(&mut mem, PROC_A + o.eproc_link, PROC_A + o.eproc_link);
    let k = open(mem);
    let (list, end) = k.process_address_list();
    assert_eq!(list, vec![Address::from_u64(SYSTEM)]);
    assert_eq!(end, Ok(()));
}

#[test]
fn process_list_is_the_same_after_reopening() {
    let first = open(memory()).process_address_list();
    let second = open(memory()).process_address_list();
    assert_eq!(first, second);
}

#[test]
fn process_list_ring_without_head_is_truncated() {
    let mut mem = memory();
    let o = offsets();
    // A links to B and B back to A: the ring never returns to System
    let b = 0x40000;
    put_u64(&mut mem, PROC_A + o.eproc_link, b + o.eproc_link);
    put_u64(&mut mem, b + o.eproc_link, PROC_A + o.eproc_link);
    put_u64(&mut mem, b + o.eproc_link + 8, PROC_A + o.eproc_link);
    let k = open(mem);
    let (list, end) = k.process_address_list();
    assert_eq!(list.len(), 65536);
    assert_eq!(end, Err(ErrorKind::ListCorrupted));
}

#[test]
fn process_list_unreadable_link() {
    let mut mem = memory();
    let o = offsets();
    put_u64(&mut mem, PROC_A + o.eproc_link, 0x7000_0000);
    let k = open(mem);
    let (list, end) = k.process_address_list();
    assert_eq!(list, vec![Address::from_u64(SYSTEM), Address::from_u64(PROC_A)]);
    assert_eq!(end, Err(ErrorKind::PartialData));
}

#[test]
fn sysproc_dtb_from_eprocess() {
    let k = open(memory());
    assert_eq!(k.sysproc_dtb, Address::from_u64(0x5000));
    let mut mem = memory();
    put_u64(&mut mem, SYSTEM + offsets().kproc_dtb, 0x5002);
    let k = open(mem);
    assert_eq!(k.sysproc_dtb, Address::from_u64(DTB));
    let mut mem = memory();
    put_u64(&mut mem, SYSTEM + offsets().kproc_dtb, 0);
    let k = open(mem);
    assert_eq!(k.sysproc_dtb, Address::from_u64(DTB));
}

#[test]
fn base_info_native_process() {
    let k = open(memory());
    let info = k.process_info_base_by_address(Address::from_u64(SYSTEM)).unwrap();
    assert_eq!(info.pid, 4);
    assert_eq!(info.name, "System");
    assert_eq!(info.sys_arch, ArchitectureIdent::X86(64, false));
    assert_eq!(info.proc_arch, ArchitectureIdent::X86(64, false));
    assert_eq!(info.address, Address::from_u64(SYSTEM));
}

#[test]
fn base_info_name_is_cut_at_fifteen() {
    let k = open(memory());
    let info = k.process_info_base_by_address(Address::from_u64(PROC_A)).unwrap();
    assert_eq!(info.name, "averylongproces");
    assert_eq!(info.name.len(), 15);
}

#[test]
fn base_info_unknown_width() {
    let mut info = kernel_info();
    info.arch = ArchitectureIdent::X86(16, false);
    let built = Win32Kernel::builder(DummyMemory::new(memory()))
        .kernel_info(info)
        .offsets(offsets())
        .build();
    assert_eq!(built.err(), Some(ErrorKind::InvalidArchitecture));
}

/// Process A as an emulated 32-bit process with both environment blocks.
fn wow64_memory() -> Vec<u8> {
    let mut mem = memory();
    let o = offsets();
    let ethread = 0x80000;
    put_u64(&mut mem, PROC_A + o.eproc_wow64, 0x9000);
    put_u64(&mut mem, PROC_A + o.kproc_dtb, DTB);
    put_u64(&mut mem, PROC_A + o.eproc_peb, 0x50000);
    put_u64(&mut mem, PROC_A + o.eproc_section_base, 0x140000);
    put_u32(&mut mem, PROC_A + o.eproc_exit_status, EXIT_STATUS_STILL_ACTIVE as u32);
    put_u64(&mut mem, PROC_A + o.eproc_thread_list, ethread + o.ethread_list_entry);
    put_u64(&mut mem, ethread + o.kthread_teb, 0x60000);
    // the 32-bit environment block, pointed to by a 32-bit field
    put_u32(&mut mem, 0x62000 + o.teb_peb_x86, 0x70000);
    put_u64(&mut mem, 0x50000 + 0x18, 0x58000);
    put_u32(&mut mem, 0x70000 + 0xc, 0x78000);
    mem
}

#[test]
fn wow64_process_discovery() {
    let k = open(wow64_memory());
    let base = k.process_info_base_by_address(Address::from_u64(PROC_A)).unwrap();
    assert_eq!(base.proc_arch, ArchitectureIdent::X86(32, true));
    assert_eq!(base.sys_arch, ArchitectureIdent::X86(64, false));
    let info = k.process_info_from_base_info(base).unwrap();
    assert_eq!(info.dtb, Address::from_u64(DTB));
    assert_eq!(info.ethread, Address::from_u64(0x80000));
    assert_eq!(info.wow64, Address::from_u64(0x9000));
    assert_eq!(info.teb, Some(Address::from_u64(0x60000)));
    assert_eq!(info.teb_wow64, Some(Address::from_u64(0x62000)));
    assert_eq!(info.peb_native, Some(Address::from_u64(0x50000)));
    assert_eq!(info.peb_wow64, Some(Address::from_u64(0x70000)));
    assert_eq!(
        info.module_info_native,
        Some(Win32ModuleListInfo { module_base: Address::from_u64(0x58010) })
    );
    assert_eq!(
        info.module_info_wow64,
        Some(Win32ModuleListInfo { module_base: Address::from_u64(0x7800c) })
    );
    assert_eq!(info.section_base, Address::from_u64(0x140000));
    assert_eq!(info.state(), ProcessState::Alive);
}

#[test]
fn native_process_has_no_wow64_view() {
    let mut mem = wow64_memory();
    put_u64(&mut mem, PROC_A + offsets().eproc_wow64, 0);
    let k = open(mem);
    let base = k.process_info_base_by_address(Address::from_u64(PROC_A)).unwrap();
    assert_eq!(base.proc_arch, ArchitectureIdent::X86(64, false));
    let info = k.process_info_from_base_info(base).unwrap();
    assert_eq!(info.teb, Some(Address::from_u64(0x60000)));
    assert_eq!(info.teb_wow64, None);
    assert_eq!(info.peb_wow64, None);
    assert_eq!(info.module_info_wow64, None);
}

#[test]
fn process_state_values() {
    assert!(ProcessState::Alive.is_alive());
    assert!(ProcessState::Dead(1).is_dead());
    assert!(ProcessState::Unknown.is_unknown());
    assert!(!ProcessState::Alive.is_dead());
}

#[test]
fn kernel_modules_need_a_pe_image() {
    let mut k = open(memory());
    assert_eq!(k.kernel_modules().err(), Some(ErrorKind::PE));
    assert_eq!(k.kernel_process_info().err(), Some(ErrorKind::PE));
    assert!(k.kernel_modules.is_none());
}

#[test]
fn export_lookup_refuses_non_pe() {
    assert_eq!(export_rva(&[0u8; 64], "PsLoadedModuleList"), Err(ErrorKind::PE));
}

#[test]
fn kernel_builder_requires_parts() {
    let b = Win32Kernel::builder(DummyMemory::new(memory()));
    assert_eq!(b.build().err(), Some(ErrorKind::NotFound));
    let b = Win32Kernel::builder(DummyMemory::new(memory())).kernel_info(kernel_info());
    assert_eq!(b.build().err(), Some(ErrorKind::OffsetsNotFound));
    let k = Win32Kernel::builder(DummyMemory::new(memory()))
        .kernel_info(kernel_info())
        .offsets(offsets())
        .build()
        .unwrap();
    assert_eq!(k.process_address_list().0.len(), 2);
    let mem = k.destroy();
    assert_eq!(mem.mem.len(), 0x40_0000);
}

#[test]
fn os_instance_keyboard() {
    let b = OsInstanceBuilder::new(5u32);
    assert!(!b.has_keyboard());
    let b = b.enable_keyboard();
    assert!(b.has_keyboard());
    assert_eq!(b.instance, 5);
}

/// Module lists: the native one (64-bit links) with two entries, the
/// emulated one (32-bit links) with one.
fn module_memory() -> Vec<u8> {
    let mut mem = wow64_memory();
    put_u64(&mut mem, 0x58010, 0x59000);
    put_u64(&mut mem, 0x59000, 0x59100);
    put_u64(&mut mem, 0x59100, 0x58010);
    put_u32(&mut mem, 0x7800c, 0x79000);
    put_u32(&mut mem, 0x79000, 0x7800c);
    mem
}

#[test]
fn wow64_module_lists() {
    let k = open(module_memory());
    let base = k.process_info_base_by_address(Address::from_u64(PROC_A)).unwrap();
    let process = k.into_process_by_info(base).unwrap();
    let wow = ArchitectureIdent::X86(32, true);
    let native = ArchitectureIdent::X86(64, false);
    assert_eq!(process.info().proc_arch, wow);
    assert_eq!(process.state(), ProcessState::Alive);
    assert_eq!(
        process.module_address_list(Some(wow)).unwrap(),
        vec![ModuleAddressInfo { address: Address::from_u64(0x79000), arch: wow }]
    );
    assert_eq!(
        process.module_list_arch(Some(native)).unwrap(),
        vec![
            ModuleAddressInfo { address: Address::from_u64(0x59000), arch: native },
            ModuleAddressInfo { address: Address::from_u64(0x59100), arch: native },
        ]
    );
    assert_eq!(process.module_list_arch(None).unwrap().len(), 3);
    assert_eq!(
        process.module_list_arch(Some(ArchitectureIdent::AArch64)).err(),
        Some(ErrorKind::ModuleNotFound)
    );
}

fn put_unicode(mem: &mut [u8], us: u64, buf: u64, s: &str) {
    let units: Vec<u16> = s.encode_utf16().collect();
    let len = (units.len() * 2) as u16;
    mem[us as usize..us as usize + 2].copy_from_slice(&len.to_le_bytes());
    mem[us as usize + 2..us as usize + 4].copy_from_slice(&len.to_le_bytes());
    put_u64(mem, us + 8, buf);
    for (i, u) in units.iter().enumerate() {
        let a = buf as usize + 2 * i;
        mem[a..a + 2].copy_from_slice(&u.to_le_bytes());
    }
}

/// Module entries for the native list of process A: `ntdll.dll`, then the
/// process image under its full name.
fn named_module_memory() -> Vec<u8> {
    let mut mem = module_memory();
    put_u64(&mut mem, 0x59000 + 0x30, 0x7ff0_0000);
    put_u32(&mut mem, 0x59000 + 0x40, 0x1f_0000);
    put_unicode(&mut mem, 0x59000 + 0x48, 0x5a000, "C:\\Windows\\System32\\ntdll.dll");
    put_unicode(&mut mem, 0x59000 + 0x58, 0x5a200, "ntdll.dll");
    put_u64(&mut mem, 0x59100 + 0x30, 0x40_0000);
    put_u32(&mut mem, 0x59100 + 0x40, 0x2000);
    put_unicode(&mut mem, 0x59100 + 0x48, 0x5a400, "C:\\averylongprocessname.exe");
    put_unicode(&mut mem, 0x59100 + 0x58, 0x5a600, "averylongprocessname.exe");
    mem
}

#[test]
fn module_entry_reading() {
    let mem = DummyMemory::new(named_module_memory());
    let vat = VirtualTranslate::new(ArchitectureIdent::X86(64, false)).unwrap();
    let (m, units) = module_info_from_entry(
        &mem,
        &vat,
        Address::from_u64(DTB),
        ArchitectureIdent::X86(64, false),
        Address::from_u64(0x59000),
        Address::from_u64(PROC_A),
    )
    .unwrap();
    assert_eq!(m.name, "ntdll.dll");
    assert_eq!(m.path, "C:\\Windows\\System32\\ntdll.dll");
    assert_eq!(m.base, Address::from_u64(0x7ff0_0000));
    assert_eq!(m.size, 0x1f_0000);
    assert_eq!(m.parent_process, Address::from_u64(PROC_A));
    assert_eq!(units.len(), 9);
}

#[test]
fn process_full_name_from_modules() {
    let k = open(named_module_memory());
    let info = k.process_info_by_address(Address::from_u64(PROC_A)).unwrap();
    assert_eq!(info.name, "averylongprocessname.exe");
    assert_eq!(info.pid, 1234);
    let system = k.process_info_by_address(Address::from_u64(SYSTEM)).unwrap();
    assert_eq!(system.name, "System");
}

#[test]
fn process_name_kept_without_module_lists() {
    let k = open(memory());
    let info = k.process_info_by_address(Address::from_u64(PROC_A)).unwrap();
    assert_eq!(info.name, "averylongproces");
}

#[test]
fn process_lookup_by_pid() {
    let k = open(memory());
    let a = k.process_info_by_pid(1234).unwrap();
    assert_eq!(a.address, Address::from_u64(PROC_A));
    assert_eq!(k.process_info_by_pid(4).unwrap().name, "System");
    assert_eq!(k.process_info_by_pid(999).err(), Some(ErrorKind::ProcessNotFound));
}

#[test]
fn kernel_module_walk_needs_the_export() {
    let mut k = open(memory());
    assert_eq!(k.module_address_list().err(), Some(ErrorKind::PE));
}

#[test]
fn process_walk_callback_stops_early() {
    let k = open(memory());
    let (seen, state) = k.process_address_list_callback(|a: Address| a != Address::from_u64(SYSTEM));
    assert_eq!(seen, vec![Address::from_u64(SYSTEM)]);
    assert_eq!(state, WalkState::Stopped(WalkStop::User));
    let (seen, state) = k.process_address_list_callback(|_a: Address| true);
    assert_eq!(seen.len(), 2);
    assert_eq!(state, WalkState::Stopped(WalkStop::End));
}

#[test]
fn walk_state_machine() {
    let s = WalkState::Init;
    assert_eq!(s.next(WalkEvent::Continue), WalkState::Init);
    let s = s.next(WalkEvent::Start);
    assert_eq!(s, WalkState::Walking);
    assert_eq!(s.next(WalkEvent::Continue), WalkState::Walking);
    assert_eq!(s.next(WalkEvent::CallbackStop), WalkState::Stopped(WalkStop::User));
    assert_eq!(s.next(WalkEvent::SentinelReached), WalkState::Stopped(WalkStop::End));
    assert_eq!(s.next(WalkEvent::MaxIter), WalkState::Stopped(WalkStop::Truncated));
    let stopped = s.next(WalkEvent::ReadErr(ErrorKind::PartialData));
    assert_eq!(stopped, WalkState::Stopped(WalkStop::IOError(ErrorKind::PartialData)));
    assert_eq!(stopped.next(WalkEvent::Continue), stopped);
}

#[test]
fn module_lookup_by_name() {
    let k = open(named_module_memory());
    let base = k.process_info_base_by_address(Address::from_u64(PROC_A)).unwrap();
    let process = k.into_process_by_info(base).unwrap();
    let ntdll = process.module_by_name("ntdll.dll").unwrap();
    assert_eq!(ntdll.base, Address::from_u64(0x7ff0_0000));
    assert_eq!(ntdll.address, Address::from_u64(0x59000));
    assert_eq!(ntdll.parent_process, Address::from_u64(PROC_A));
    let image = process
        .module_by_name_arch("averylongprocessname.exe", Some(ArchitectureIdent::X86(64, false)))
        .unwrap();
    assert_eq!(image.size, 0x2000);
    assert_eq!(process.module_by_name("missing.dll").err(), Some(ErrorKind::ModuleNotFound));
}

#[test]
fn aarch64_kernel_opens() {
    let mut info = kernel_info();
    info.arch = ArchitectureIdent::AArch64;
    let k = Win32Kernel::new(DummyMemory::new(vec![0u8; 0x1000]), offsets(), info);
    assert_eq!(k.sysproc_dtb, Address::from_u64(DTB));
    assert_eq!(k.process_address_list().1, Err(ErrorKind::PartialData));
}

#[test]
fn process_name_before_unreadable_page() {
    let mut mem = memory();
    let o = offsets();
    // the name field runs into the unmapped page above 4 MiB
    let eproc = 0x40_0000 - o.eproc_name - 4;
    mem[(eproc + o.eproc_name) as usize..(eproc + o.eproc_name) as usize + 4].copy_from_slice(b"abc\0");
    put_u32(&mut mem, eproc + o.eproc_pid, 77);
    let mut o = offsets();
    o.eproc_wow64 = 0;
    let k = Win32Kernel::new(DummyMemory::new(mem), o, kernel_info());
    let info = k.process_info_base_by_address(Address::from_u64(eproc)).unwrap();
    assert_eq!(info.name, "abc");
    assert_eq!(info.pid, 77);
}

#[test]
fn module_infos_in_list_order() {
    let k = open(named_module_memory());
    let base = k.process_info_base_by_address(Address::from_u64(PROC_A)).unwrap();
    let process = k.into_process_by_info(base).unwrap();
    let infos = process.module_info_list(None).unwrap();
    let names: Vec<String> = infos.iter().map(|m| m.name.clone()).collect();
    assert_eq!(names, vec!["ntdll.dll".to_string(), "averylongprocessname.exe".to_string()]);
    assert_eq!(infos[1].base, Address::from_u64(0x40_0000));
    assert!(process.module_info_list(Some(ArchitectureIdent::X86(32, true))).unwrap().is_empty());
}

#[test]
fn module_names_decode_utf16() {
    let mut mem = named_module_memory();
    put_unicode(&mut mem, 0x59000 + 0x58, 0x5a200, "d\u{e9}j\u{e0}\u{1f600}.dll");
    // a lone trailing surrogate in the path
    put_unicode(&mut mem, 0x59000 + 0x48, 0x5a000, "ab");
    mem[0x5a002..0x5a004].copy_from_slice(&0xdc00u16.to_le_bytes());
    let mem = DummyMemory::new(mem);
    let vat = VirtualTranslate::new(ArchitectureIdent::X86(64, false)).unwrap();
    let (m, _) = module_info_from_entry(
        &mem,
        &vat,
        Address::from_u64(DTB),
        ArchitectureIdent::X86(64, false),
        Address::from_u64(0x59000),
        Address::from_u64(PROC_A),
    )
    .unwrap();
    assert_eq!(m.name, "d\u{e9}j\u{e0}\u{1f600}.dll");
    assert_eq!(m.path, "a\u{fffd}");
}

#[test]
fn module_enumeration_stops_on_request() {
    let k = open(named_module_memory());
    let base = k.process_info_base_by_address(Address::from_u64(PROC_A)).unwrap();
    let process = k.into_process_by_info(base).unwrap();
    let (seen, state) = process.module_info_list_callback(None, |m: &ModuleInfo| m.name != "ntdll.dll");
    assert_eq!(seen.len(), 1);
    assert_eq!(seen[0].name, "ntdll.dll");
    assert_eq!(state, WalkState::Stopped(WalkStop::User));
    let (seen, state) = process.module_info_list_callback(None, |_m: &ModuleInfo| true);
    assert_eq!(seen.len(), 2);
    assert_eq!(state, WalkState::Stopped(WalkStop::End));
    let (seen, state) =
        process.module_info_list_callback(Some(ArchitectureIdent::AArch64), |_m: &ModuleInfo| true);
    assert!(seen.is_empty());
    assert_eq!(state, WalkState::Stopped(WalkStop::IOError(ErrorKind::ModuleNotFound)));
}

#[test]
fn module_list_from_lookup_outcomes() {
    let mut mem = memory();
    put_u64(&mut mem, 0x100000 + 0x1234, 0x77000);
    let k = open(mem);
    assert_eq!(k.module_list_from_lookup(Err(pelite::Error::Null)), Err(ErrorKind::PE));
    assert_eq!(k.module_list_from_lookup(Ok(None)), Err(ErrorKind::ForwardedExport));
    assert_eq!(
        k.module_list_from_lookup(Ok(Some(0x1234))),
        Ok(Win32ModuleListInfo { module_base: Address::from_u64(0x77000) })
    );
}

#[test]
fn export_directory_overflow_slot_follows_magic() {
    let mut img = vec![0u8; 0x400];
    img[0] = b'M';
    img[1] = b'Z';
    img[0x3c..0x40].copy_from_slice(&0x80u32.to_le_bytes());
    let opt = 0x80 + 24;
    // PE32+: the export entry sits 112 bytes into the optional header
    img[opt..opt + 2].copy_from_slice(&0x20bu16.to_le_bytes());
    img[opt + 96..opt + 100].copy_from_slice(&0xffff_0000u32.to_le_bytes());
    img[opt + 100..opt + 104].copy_from_slice(&0x2_0000u32.to_le_bytes());
    assert!(!export_dir_overflow(&img));
    img[opt + 112..opt + 116].copy_from_slice(&0xffff_0000u32.to_le_bytes());
    img[opt + 116..opt + 120].copy_from_slice(&0x2_0000u32.to_le_bytes());
    assert!(export_dir_overflow(&img));
    assert_eq!(export_rva(&img, "PsLoadedModuleList"), Err(ErrorKind::PE));
}
