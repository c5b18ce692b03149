use cloude_vmm::memory::{
    build_boot_params, build_e820, initramfs_load_addr, plan_memslots, E820Entry, E820_RAM,
    CMDLINE_START, EBDA_START, HIMEM_START, ZERO_PAGE_START,
};
use cloude_vmm::mptable::{setup_mptable, MPF_INTEL_LEN, MPTABLE_START};
use cloude_vmm::vcpu::{
    build_page_tables, configure_fpu, configure_lapic_lines, configure_msrs, configure_regs,
    configure_sregs, dispatch_exit, filter_cpuid, CpuidEntry, ExitAction, VcpuExit, EFER_LMA,
    EFER_LME, MSR_IA32_MISC_ENABLE, MSR_IA32_SYSENTER_CS, X86_CR0_PE, X86_CR0_PG, X86_CR4_PAE,
};
use cloude_vmm::{Error, MMIO_GAP_START};

fn byte_sum(bytes: &[u8]) -> u32 {
    let mut sum: u32 = 0;
    for &b in bytes.iter() {
        sum = (sum + b as u32) % 256;
    }
    sum
}

#[test]
fn mptable_structures_checksum_to_zero() {
    let table = setup_mptable(2).unwrap();
    assert_eq!(byte_sum(&table.floating_pointer), 0);
    assert_eq!(byte_sum(&table.config_table), 0);
    assert_eq!(table.floating_pointer.len(), MPF_INTEL_LEN);
    assert_eq!(&table.floating_pointer[0..4], b"_MP_");
    assert_eq!(&table.config_table[0..4], b"PCMP");
    // header + two processors + the I/O APIC
    assert_eq!(table.config_table.len(), 44 + 2 * 20 + 8);
}

#[test]
fn mptable_lists_processors_then_ioapic() {
    let table = setup_mptable(2).unwrap();
    let ct = &table.config_table;
    // entry count: two processors and the I/O APIC
    assert_eq!(ct[34], 3);
    assert_eq!(ct[35], 0);
    // processor entries carry their APIC ids in order
    assert_eq!(ct[44], 0);
    assert_eq!(ct[45], 0);
    assert_eq!(ct[44 + 20], 0);
    assert_eq!(ct[44 + 21], 1);
    // the I/O APIC entry sits behind them
    assert_eq!(ct[44 + 40], 2);
    assert_eq!(ct[44 + 41], 2);
}

#[test]
fn mptable_with_one_cpu_checksums_too() {
    let table = setup_mptable(1).unwrap();
    assert_eq!(byte_sum(&table.floating_pointer), 0);
    assert_eq!(byte_sum(&table.config_table), 0);
}

#[test]
fn mptable_refuses_zero_cpus() {
    assert_eq!(setup_mptable(0).unwrap_err(), Error::Mptable);
}

#[test]
fn mptable_sits_in_bios_rom() {
    assert_eq!(MPTABLE_START, 0xf0000);
    assert!(MPTABLE_START >= 0xf0000 && MPTABLE_START < 0x100000);
}

#[test]
fn memslots_cover_ram_within_host_mapping() {
    let mem_size: u64 = 256 << 20;
    let host_base: u64 = 0x7f00_0000_0000;
    let slots = plan_memslots(mem_size, host_base, mem_size).unwrap();
    assert_eq!(slots.len(), 1);
    assert_eq!(slots[0].slot, 0);
    assert_eq!(slots[0].guest_phys_addr, 0);
    assert_eq!(slots[0].size, mem_size);
    assert_eq!(slots[0].host_virt_addr, host_base);
    assert_eq!(slots[0].flags, 0);
    assert!(slots[0].host_virt_addr + slots[0].size <= host_base + mem_size);
}

#[test]
fn memslots_reject_oversized_ram() {
    let err = plan_memslots(256 << 20, 0x1000, 128 << 20).unwrap_err();
    assert_eq!(err, Error::Memory);
    assert_eq!(plan_memslots(0, 0x1000, 128 << 20).unwrap_err(), Error::Memory);
}

#[test]
fn e820_describes_ram_below_the_gap() {
    let entries = build_e820(512 << 20).unwrap();
    assert_eq!(entries.len(), 2);
    assert_eq!(entries[0].addr, 0);
    assert_eq!(entries[0].size, EBDA_START);
    assert_eq!(entries[0].kind, E820_RAM);
    assert_eq!(entries[1].addr, HIMEM_START);
    assert_eq!(entries[1].size, (512 << 20) - HIMEM_START);
    assert_eq!(entries[1].kind, E820_RAM);
}

#[test]
fn oversized_memory_is_rejected_not_capped() {
    // one byte past the gap start must be refused
    let err = build_e820(MMIO_GAP_START + 1).unwrap_err();
    assert_eq!(err, Error::HimemStartPastMemEnd);
    // the gap start itself is the largest accepted size
    assert!(build_e820(MMIO_GAP_START).is_ok());
    // below the high-memory base nothing can boot
    assert_eq!(build_e820(HIMEM_START - 1).unwrap_err(), Error::HimemStartPastMemEnd);
}

#[test]
fn initramfs_lands_page_aligned_below_ram_end() {
    let addr = initramfs_load_addr(256 << 20, 0x12345).unwrap();
    assert_eq!(addr % 0x1000, 0);
    assert!(addr + 0x12345 <= 256 << 20);
    assert!(addr >= HIMEM_START);
    assert_eq!(addr, ((256u64 << 20) - 0x12345) / 0x1000 * 0x1000);
}

#[test]
fn initramfs_that_cannot_fit_is_rejected() {
    assert_eq!(initramfs_load_addr(2 << 20, 4 << 20).unwrap_err(), Error::KernelLoad);
    assert_eq!(initramfs_load_addr(2 << 20, 0).unwrap_err(), Error::KernelLoad);
}

#[test]
fn boot_params_carry_the_pieces() {
    let e820 = build_e820(128 << 20).unwrap();
    let params = build_boot_params(e820, 40, Some((0x7f0_0000, 0x1000))).unwrap();
    assert_eq!(params.cmdline_addr, CMDLINE_START);
    assert_eq!(params.cmdline_size, 40);
    assert_eq!(params.initramfs_addr, 0x7f0_0000);
    assert_eq!(params.initramfs_size, 0x1000);
    assert_eq!(params.e820.len(), 2);
}

#[test]
fn boot_params_refuse_an_overlong_e820() {
    let mut entries: Vec<E820Entry> = Vec::new();
    for i in 0..129u64 {
        entries.push(E820Entry { addr: i * 0x1000, size: 0x1000, kind: E820_RAM });
    }
    assert_eq!(build_boot_params(entries, 0, None).unwrap_err(), Error::E820Configuration);
}

#[test]
fn boot_registers_follow_the_protocol() {
    let regs = configure_regs(0x0100_0000);
    assert_eq!(regs.rip, 0x0100_0000);
    assert_eq!(regs.rsi, ZERO_PAGE_START);
    assert_eq!(regs.rflags, 2);
}

#[test]
fn sregs_enable_long_mode() {
    let sregs = configure_sregs();
    assert_eq!(sregs.cr0 & X86_CR0_PE, X86_CR0_PE);
    assert_eq!(sregs.cr0 & X86_CR0_PG, X86_CR0_PG);
    assert_eq!(sregs.cr4 & X86_CR4_PAE, X86_CR4_PAE);
    assert_eq!(sregs.efer & EFER_LME, EFER_LME);
    assert_eq!(sregs.efer & EFER_LMA, EFER_LMA);
    assert_eq!(sregs.cr3, 0x9000);
    assert_eq!(sregs.cs.l, 1);
}

#[test]
fn page_tables_identity_map_the_first_gib() {
    let writes = build_page_tables();
    assert_eq!(writes.len(), 514);
    assert_eq!(writes[0].addr, 0x9000);
    assert_eq!(writes[0].value, 0xa000 + 3);
    assert_eq!(writes[1].addr, 0xa000);
    assert_eq!(writes[1].value, 0xb000 + 3);
    assert_eq!(writes[2].addr, 0xb000);
    assert_eq!(writes[2].value, 0x83);
    assert_eq!(writes[513].addr, 0xb000 + 511 * 8);
    assert_eq!(writes[513].value, 511 * 0x20_0000 + 0x83);
}

#[test]
fn cpuid_edit_sets_apic_id_and_topology() {
    let mut entries = vec![
        CpuidEntry { function: 0, index: 0, flags: 0, eax: 13, ebx: 0, ecx: 0, edx: 0 },
        CpuidEntry {
            function: 1,
            index: 0,
            flags: 0,
            eax: 0,
            ebx: 0x00ff_1100,
            ecx: 0x0120_0001,
            edx: 0,
        },
        CpuidEntry { function: 0xb, index: 0, flags: 0, eax: 0, ebx: 0x5, ecx: 0, edx: 99 },
        CpuidEntry { function: 0xb, index: 1, flags: 0, eax: 0, ebx: 0x7, ecx: 0, edx: 99 },
    ];
    filter_cpuid(3, 4, &mut entries);
    // untouched leaf
    assert_eq!(entries[0].eax, 13);
    // APIC id 3 in the top byte, 4 logical processors, CLFLUSH bits kept
    assert_eq!(entries[1].ebx, 0x0304_1100);
    // x2APIC and TSC-deadline masked off, the rest kept
    assert_eq!(entries[1].ecx, 1);
    // more than one vCPU: multi-threading announced
    assert_eq!(entries[1].edx, 0x1000_0000);
    // thread level reports one, core level the full count, both report id 3
    assert_eq!(entries[2].ebx, 1);
    assert_eq!(entries[2].edx, 3);
    assert_eq!(entries[3].ebx, 4);
    assert_eq!(entries[3].edx, 3);
}

#[test]
fn cpuid_edit_single_vcpu_clears_multithreading() {
    let mut entries = vec![CpuidEntry {
        function: 1,
        index: 0,
        flags: 0,
        eax: 0,
        ebx: 0,
        ecx: 0,
        edx: 0x1000_0000,
    }];
    filter_cpuid(0, 1, &mut entries);
    assert_eq!(entries[0].edx, 0);
    assert_eq!(entries[0].ebx, 0x0001_0000);
}

#[test]
fn msrs_follow_boot_defaults() {
    let msrs = configure_msrs();
    assert_eq!(msrs.len(), 4);
    assert_eq!(msrs[0].index, MSR_IA32_SYSENTER_CS);
    assert_eq!(msrs[0].data, 0);
    assert_eq!(msrs[3].index, MSR_IA32_MISC_ENABLE);
    assert_eq!(msrs[3].data, 1);
}

#[test]
fn fpu_starts_with_architectural_defaults() {
    let fpu = configure_fpu();
    assert_eq!(fpu.fcw, 0x37f);
    assert_eq!(fpu.mxcsr, 0x1f80);
}

#[test]
fn lapic_lines_get_extint_and_nmi() {
    let (lint0, lint1) = configure_lapic_lines(0x0001_0000, 0x0002_0500);
    assert_eq!(lint0, 0x0001_0700);
    assert_eq!(lint1, 0x0002_0400);
}

#[test]
fn exits_dispatch_to_the_right_device() {
    let net = Some((0xd000_0000u64, 0x1000u64));
    assert_eq!(dispatch_exit(VcpuExit::Hlt, net), ExitAction::Idle);
    assert_eq!(
        dispatch_exit(VcpuExit::IoOut { port: 0x3f8 }, net),
        ExitAction::SerialWrite { offset: 0 }
    );
    assert_eq!(
        dispatch_exit(VcpuExit::IoIn { port: 0x3fd }, net),
        ExitAction::SerialRead { offset: 5 }
    );
    assert_eq!(dispatch_exit(VcpuExit::IoIn { port: 0x80 }, net), ExitAction::Ignore);
    assert_eq!(
        dispatch_exit(VcpuExit::MmioRead { addr: 0xd000_0050 }, net),
        ExitAction::NetRead { mmio_offset: 0x50 }
    );
    assert_eq!(
        dispatch_exit(VcpuExit::MmioWrite { addr: 0xd000_0070 }, net),
        ExitAction::NetWrite { mmio_offset: 0x70 }
    );
    assert_eq!(dispatch_exit(VcpuExit::MmioWrite { addr: 0xd000_0070 }, None), ExitAction::Ignore);
    assert_eq!(dispatch_exit(VcpuExit::Shutdown, net), ExitAction::Stop);
    assert_eq!(dispatch_exit(VcpuExit::TripleFault, net), ExitAction::Stop);
    assert_eq!(dispatch_exit(VcpuExit::Interrupted, net), ExitAction::Yield);
    assert_eq!(dispatch_exit(VcpuExit::Unknown, net), ExitAction::Stop);
}
