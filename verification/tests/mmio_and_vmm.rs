use cloude_vmm::mmio_allocator::MmioAddressAllocator;
use cloude_vmm::vmm::{VmmPhase, VMM};
use cloude_vmm::{Error, MMIO_GAP_END, MMIO_GAP_SIZE, MMIO_GAP_START};

#[test]
fn gap_constants_are_consistent() {
    assert_eq!(MMIO_GAP_END, 1u64 << 32);
    assert_eq!(MMIO_GAP_SIZE, 768 << 20);
    assert_eq!(MMIO_GAP_START, MMIO_GAP_END - MMIO_GAP_SIZE);
}

#[test]
fn allocations_are_aligned_and_disjoint() {
    let mut a = MmioAddressAllocator::new(MMIO_GAP_START, 0x10000).unwrap();
    let r1 = a.allocate(0x1000, 0x1000).unwrap();
    let r2 = a.allocate(0x1000, 0x1000).unwrap();
    assert_eq!(r1.0 % 0x1000, 0);
    assert_eq!(r2.0 % 0x1000, 0);
    assert_eq!(r1.1 - r1.0 + 1, 0x1000);
    assert!(r1.1 < r2.0 || r2.1 < r1.0);
    assert!(r1.0 >= MMIO_GAP_START && r2.1 < MMIO_GAP_START + 0x10000);
}

#[test]
fn window_exhaustion_reports_address_allocation() {
    // window of 0x2000: two page-sized carves fit, the third must fail
    let mut a = MmioAddressAllocator::new(MMIO_GAP_START, 0x2000).unwrap();
    assert!(a.allocate(0x1000, 0x1000).is_ok());
    assert!(a.allocate(0x1000, 0x1000).is_ok());
    assert_eq!(a.allocate(0x1000, 0x1000).unwrap_err(), Error::AddressAllocation);
}

#[test]
fn window_at_address_space_ceiling_cannot_serve_its_last_page() {
    // the underlying carver steps past a range's end before stepping back,
    // so a page ending exactly at the last address is refused; the success
    // promise therefore stops below the ceiling
    let mut a = MmioAddressAllocator::new(0xffff_ffff_ffff_f000, 0x1000).unwrap();
    assert_eq!(a.allocate(0x1000, 0x1000).unwrap_err(), Error::AddressAllocation);
}

#[test]
fn empty_window_is_rejected() {
    assert_eq!(MmioAddressAllocator::new(MMIO_GAP_START, 0).unwrap_err(), Error::AddressAllocation);
}

#[test]
fn net_devices_get_disjoint_windows_and_irqs() {
    let mut vmm = VMM::new(64 << 20).unwrap();
    vmm.add_net_device("tap0".to_string()).unwrap();
    let first = {
        let n = vmm.net.as_ref().unwrap();
        (n.mmio_start, n.mmio_len, n.irq)
    };
    vmm.add_net_device("tap1".to_string()).unwrap();
    let second = {
        let n = vmm.net.as_ref().unwrap();
        (n.mmio_start, n.mmio_len, n.irq)
    };
    assert!(first.0 + first.1 <= second.0 || second.0 + second.1 <= first.0);
    assert_eq!(second.2, first.2 + 1);
    assert_eq!(vmm.cmdline_components.len(), 2);
}

#[test]
fn net_device_gets_window_and_irq() {
    let mut vmm = VMM::new(64 << 20).unwrap();
    vmm.add_net_device("tap0".to_string()).unwrap();
    let net = vmm.net.as_ref().unwrap();
    assert_eq!(net.mmio_start, MMIO_GAP_START);
    assert_eq!(net.mmio_len, 0x1000);
    assert_eq!(net.irq, 5);
    assert_eq!(net.tap_name, "tap0");
    assert_eq!(vmm.cmdline_components.len(), 1);
    assert_eq!(vmm.cmdline_components[0], " virtio_mmio.device=4K@0xd0000000:5");
}

#[test]
fn lifecycle_follows_the_phases() {
    let mut vmm = VMM::new(64 << 20).unwrap();
    assert_eq!(vmm.phase, VmmPhase::Created);
    // run before configure fails cleanly
    assert_eq!(vmm.run().unwrap_err(), Error::NotConfigured);
    let config = vmm.configure(1, 0x0100_0000).unwrap();
    assert_eq!(config.vcpus.len(), 1);
    assert_eq!(vmm.phase, VmmPhase::Configured);
    // a second configure is refused
    assert_eq!(vmm.configure(1, 0x0100_0000).unwrap_err(), Error::AlreadyConfigured);
    assert!(vmm.run().is_ok());
    assert!(vmm.running);
    vmm.stop();
    assert!(!vmm.running);
}

#[test]
fn stop_then_run_fails_cleanly() {
    let mut vmm = VMM::new(64 << 20).unwrap();
    vmm.configure(1, 0x0100_0000).unwrap();
    vmm.stop();
    assert_eq!(vmm.run().unwrap_err(), Error::NotConfigured);
}

#[test]
fn stop_twice_is_a_noop() {
    let mut vmm = VMM::new(64 << 20).unwrap();
    vmm.configure(2, 0x0100_0000).unwrap();
    vmm.run().unwrap();
    vmm.stop();
    let phase = vmm.phase;
    let running = vmm.running;
    vmm.stop();
    assert_eq!(vmm.phase, phase);
    assert_eq!(vmm.running, running);
    assert_eq!(vmm.phase, VmmPhase::Stopped);
    assert!(!vmm.running);
}

#[test]
fn configure_rejects_oversized_memory() {
    // one byte past the gap start: rejected, never capped
    let mut vmm = VMM::new(MMIO_GAP_START + 1).unwrap();
    assert_eq!(vmm.configure(1, 0x0100_0000).unwrap_err(), Error::HimemStartPastMemEnd);
    // the VMM stays fresh: a well-sized VMM still configures
    let mut small = VMM::new(MMIO_GAP_START).unwrap();
    assert!(small.configure(1, 0x0100_0000).is_ok());
}

#[test]
fn configure_rejects_memory_below_himem() {
    let mut vmm = VMM::new(0x8_0000).unwrap();
    assert_eq!(vmm.configure(1, 0x0100_0000).unwrap_err(), Error::HimemStartPastMemEnd);
}

#[test]
fn configure_carries_the_e820_map() {
    let mut vmm = VMM::new(128 << 20).unwrap();
    let config = vmm.configure(1, 0x0100_0000).unwrap();
    assert_eq!(config.e820.len(), 2);
    assert_eq!(config.e820[1].addr, 0x10_0000);
    assert_eq!(config.e820[1].size, (128 << 20) - 0x10_0000);
}

#[test]
fn configure_with_zero_vcpus_fails() {
    let mut vmm = VMM::new(64 << 20).unwrap();
    assert_eq!(vmm.configure(0, 0x0100_0000).unwrap_err(), Error::Mptable);
}

#[test]
fn add_net_device_after_configure_is_refused() {
    let mut vmm = VMM::new(64 << 20).unwrap();
    vmm.configure(1, 0x0100_0000).unwrap();
    assert_eq!(vmm.add_net_device("tap0".to_string()).unwrap_err(), Error::Virtio);
}

#[test]
fn configure_assembles_cmdline_with_fragments() {
    let mut vmm = VMM::new(64 << 20).unwrap();
    vmm.add_net_device("tap0".to_string()).unwrap();
    let config = vmm.configure(2, 0x0100_0000).unwrap();
    assert_eq!(
        config.cmdline,
        "console=ttyS0 quiet panic=-1 virtio_mmio.device=4K@0xd0000000:5"
    );
}

#[test]
fn two_vcpus_are_planned_alike() {
    let mut vmm = VMM::new(64 << 20).unwrap();
    let config = vmm.configure(2, 0x0100_0000).unwrap();
    assert_eq!(config.vcpus.len(), 2);
    assert_eq!(config.vcpus[0].index, 0);
    assert_eq!(config.vcpus[1].index, 1);
    for plan in config.vcpus.iter() {
        assert_eq!(plan.regs.rip, 0x0100_0000);
        assert_eq!(plan.regs.rsi, 0x7000);
        assert_eq!(plan.regs.rflags, 2);
        assert_eq!(plan.sregs.cr3, 0x9000);
        assert_eq!(plan.sregs.cs.l, 1);
        assert_eq!(plan.sregs.cs.base, 0);
        assert_eq!(plan.sregs.ds.limit, 0xfffff);
    }
}
