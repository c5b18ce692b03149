use cloude_vmm::net_device::{
    guestusize_to_str, VirtioNetDevice, STATUS_DRIVER_OK, STATUS_FEATURES_OK,
    VIRTIO_NET_DEVICE_FEATURES, VIRTIO_NET_QUEUE_SIZE,
};
use cloude_vmm::net_queue::{
    build_rx_frame, needs_interrupt, strip_tx_frame, VIRTIO_NET_HDR_SIZE,
};
use cloude_vmm::Error;

fn device() -> VirtioNetDevice {
    VirtioNetDevice::new(5, "tap0".to_string(), 0xd000_0000, 0x1000)
}

#[test]
fn advertised_features_match_the_fixed_word() {
    let expected: u64 = (1 << 32) | (1 << 29) | (1 << 35) | (1 << 0) | (1 << 1) | (1 << 7)
        | (1 << 8) | (1 << 10) | (1 << 11) | (1 << 12) | (1 << 14);
    assert_eq!(VIRTIO_NET_DEVICE_FEATURES, expected);
    assert_eq!(VIRTIO_NET_DEVICE_FEATURES, 0x9_2000_5d83);
}

#[test]
fn queue_size_is_256() {
    assert_eq!(VIRTIO_NET_QUEUE_SIZE, 256);
    let dev = device();
    assert_eq!(dev.rx_queue.size, 256);
    assert_eq!(dev.tx_queue.size, 256);
    assert_eq!(dev.mmio_read(0x34), 256);
}

#[test]
fn cmdline_fragment_is_exact() {
    let dev = device();
    assert_eq!(dev.cmdline_string(), " virtio_mmio.device=4K@0xd0000000:5");
}

#[test]
fn cmdline_fragment_scales_suffixes() {
    assert_eq!(guestusize_to_str(0x1000), "4K");
    assert_eq!(guestusize_to_str(1 << 20), "1M");
    assert_eq!(guestusize_to_str(3 << 30), "3G");
    assert_eq!(guestusize_to_str(0x1001), "4097");
}

#[test]
fn mmio_config_registers_read_back() {
    let dev = device();
    assert_eq!(dev.mmio_read(0x00), 0x7472_6976); // "virt"
    assert_eq!(dev.mmio_read(0x04), 2);
    assert_eq!(dev.mmio_read(0x08), 1); // network card
    assert_eq!(dev.mmio_read(0x10), (VIRTIO_NET_DEVICE_FEATURES & 0xffff_ffff) as u32);
    assert_eq!(dev.mmio_read(0x60), 0); // nothing pending
}

#[test]
fn feature_banks_switch_on_selector() {
    let mut dev = device();
    dev.mmio_write(0x14, 1);
    assert_eq!(dev.mmio_read(0x10), (VIRTIO_NET_DEVICE_FEATURES >> 32) as u32);
}

#[test]
fn negotiation_activates_once() {
    let mut dev = device();
    // the driver accepts a subset of the features
    dev.mmio_write(0x20, (VIRTIO_NET_DEVICE_FEATURES & 0xffff_ffff) as u32);
    dev.mmio_write(0x24, 1);
    dev.mmio_write(0x20, (VIRTIO_NET_DEVICE_FEATURES >> 32) as u32);
    // both queues ready
    dev.mmio_write(0x30, 0);
    dev.mmio_write(0x44, 1);
    dev.mmio_write(0x30, 1);
    dev.mmio_write(0x44, 1);
    // features-ok sticks, driver-ok activates
    let activated = dev.mmio_write(0x70, STATUS_FEATURES_OK | STATUS_DRIVER_OK | 3);
    assert!(activated);
    assert!(dev.activated);
    assert_eq!(dev.mmio_read(0x70), STATUS_FEATURES_OK | STATUS_DRIVER_OK | 3);
    // a second driver-ok write does not activate again
    let again = dev.mmio_write(0x70, STATUS_FEATURES_OK | STATUS_DRIVER_OK | 3);
    assert!(!again);
    assert!(dev.activated);
}

#[test]
fn unknown_driver_features_clear_features_ok() {
    let mut dev = device();
    // offer a bit the device never advertised
    dev.mmio_write(0x20, 1 << 5);
    let activated = dev.mmio_write(0x70, STATUS_FEATURES_OK);
    assert!(!activated);
    assert_eq!(dev.mmio_read(0x70), 0);
}

#[test]
fn activation_without_ready_queues_is_refused() {
    let mut dev = device();
    let activated = dev.mmio_write(0x70, STATUS_DRIVER_OK);
    assert!(!activated);
    assert!(!dev.activated);
}

#[test]
fn queue_notify_register_is_inert() {
    let mut dev = device();
    let before_status = dev.mmio_read(0x70);
    assert!(!dev.mmio_write(0x50, 0));
    assert_eq!(dev.mmio_read(0x70), before_status);
}

#[test]
fn tx_frames_lose_their_header() {
    let mut frame = vec![0u8; VIRTIO_NET_HDR_SIZE];
    frame.extend_from_slice(b"payload");
    let payload = strip_tx_frame(&frame).unwrap();
    assert_eq!(payload, b"payload".to_vec());
}

#[test]
fn short_tx_frames_are_malformed() {
    let frame = vec![0u8; VIRTIO_NET_HDR_SIZE - 1];
    assert_eq!(strip_tx_frame(&frame).unwrap_err(), Error::Virtio);
}

#[test]
fn rx_frames_gain_a_header() {
    let frame = vec![0xaau8, 0xbb];
    let wrapped = build_rx_frame(&frame);
    assert_eq!(wrapped.len(), VIRTIO_NET_HDR_SIZE + 2);
    // no offload claims, one buffer
    assert_eq!(&wrapped[0..10], &[0u8; 10]);
    assert_eq!(wrapped[10], 1);
    assert_eq!(wrapped[11], 0);
    assert_eq!(&wrapped[12..], &frame[..]);
}

#[test]
fn used_event_rule_decides_interrupts() {
    // the driver asked to be told at index 3; publishing 2..=4 crosses it
    assert!(needs_interrupt(3, 4, 2));
    // already past the mark: publishing 5..=6 does not cross 3
    assert!(!needs_interrupt(3, 6, 5));
    // no progress: nothing to signal
    assert!(!needs_interrupt(3, 5, 5));
    // wrap-around of the 16-bit index space
    assert!(needs_interrupt(0xffff, 1, 0xfffe));
}
