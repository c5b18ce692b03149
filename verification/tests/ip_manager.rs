use cloude_vmm::ip_pool::{ip_to_string, IpManager, IpManagerError, IpManagerState};

// Pool of 3 addresses: 192.168.1.10 ..= 192.168.1.12.
fn test_manager() -> IpManager {
    IpManager::new(0xc0a8_010a, 0xc0a8_010c)
}

#[test]
fn test_allocate_and_release() {
    let mut manager = test_manager();

    // Allocate 1
    let ip1 = manager.allocate_ip("vm-1").unwrap();
    assert_eq!(ip1, "192.168.1.10");

    // Release 1
    let released = manager.release_ip("vm-1").unwrap();
    assert!(released);

    // Re-allocate should get the same first available IP
    let ip1_again = manager.allocate_ip("vm-1").unwrap();
    assert_eq!(ip1_again, "192.168.1.10");
}

#[test]
fn test_pool_exhaustion() {
    let mut manager = test_manager();

    assert!(manager.allocate_ip("vm-1").is_ok());
    assert!(manager.allocate_ip("vm-2").is_ok());
    assert!(manager.allocate_ip("vm-3").is_ok());

    // 4th allocation should fail
    let res = manager.allocate_ip("vm-4");
    assert!(matches!(res, Err(IpManagerError::PoolExhausted)));
}

#[test]
fn test_idempotent_allocation() {
    let mut manager = test_manager();

    let ip1 = manager.allocate_ip("vm-1").unwrap();
    let ip1_again = manager.allocate_ip("vm-1").unwrap(); // Ask again for same VM

    assert_eq!(ip1, ip1_again);
}

#[test]
fn three_vms_get_consecutive_addresses() {
    let mut manager = test_manager();
    assert_eq!(manager.allocate_ip("vm-1").unwrap(), "192.168.1.10");
    assert_eq!(manager.allocate_ip("vm-2").unwrap(), "192.168.1.11");
    assert_eq!(manager.allocate_ip("vm-3").unwrap(), "192.168.1.12");
}

#[test]
fn release_of_unknown_vm_reports_false() {
    let mut manager = test_manager();
    assert_eq!(manager.release_ip("vm-9").unwrap(), false);
}

#[test]
fn restored_state_keeps_allocations() {
    let mut first = IpManager::new(0x0a00_0001, 0x0a00_000a);
    assert_eq!(first.allocate_ip("vm-1").unwrap(), "10.0.0.1");
    let state = IpManagerState { allocations: first.state.allocations };
    let mut second = IpManager::with_state(0x0a00_0001, 0x0a00_000a, state);
    assert_eq!(second.allocate_ip("vm-1").unwrap(), "10.0.0.1");
    assert_eq!(second.allocate_ip("vm-2").unwrap(), "10.0.0.2");
}

#[test]
fn renders_dotted_quads() {
    assert_eq!(ip_to_string(0xc0a8_010a), "192.168.1.10");
    assert_eq!(ip_to_string(0), "0.0.0.0");
    assert_eq!(ip_to_string(0xffff_ffff), "255.255.255.255");
}
