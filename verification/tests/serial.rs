use cloude_vmm::serial::{SerialDevice, IIR_NONE, IIR_RX_DATA, LSR_IDLE, MSR_DEFAULT};

#[test]
fn thr_writes_reach_writer_in_order() {
    let mut dev = SerialDevice::new();
    let payload = b"hello, guest\n";
    for &b in payload.iter() {
        dev.write(0, b);
    }
    let out = dev.drain_output();
    assert_eq!(out, payload.to_vec());
    // a second drain hands out nothing new
    assert_eq!(dev.drain_output(), Vec::<u8>::new());
}

#[test]
fn stdin_bytes_appear_at_rbr_in_order() {
    let mut dev = SerialDevice::new();
    let input = vec![0x41u8, 0x42, 0x43, 0x0a];
    let (taken, _) = dev.enqueue_raw_bytes(&input);
    assert_eq!(taken, 4);
    let mut seen = Vec::new();
    for _ in 0..4 {
        seen.push(dev.read(0));
    }
    assert_eq!(seen, input);
    // drained: the line status no longer reports data ready
    assert_eq!(dev.read(5), LSR_IDLE);
}

#[test]
fn lsr_reports_data_ready() {
    let mut dev = SerialDevice::new();
    assert_eq!(dev.read(5), LSR_IDLE);
    dev.enqueue_raw_bytes(&vec![1u8]);
    assert_eq!(dev.read(5), LSR_IDLE | 1);
}

#[test]
fn rx_interrupt_raised_on_first_byte_when_enabled() {
    let mut dev = SerialDevice::new();
    // enable receive-data interrupts
    dev.write(1, 0x01);
    let (_, irq) = dev.enqueue_raw_bytes(&vec![7u8]);
    assert!(irq);
    // FIFO already non-empty: no new edge
    let (_, irq2) = dev.enqueue_raw_bytes(&vec![8u8]);
    assert!(!irq2);
    assert_eq!(dev.read(2), IIR_RX_DATA);
}

#[test]
fn no_rx_interrupt_when_disabled() {
    let mut dev = SerialDevice::new();
    let (_, irq) = dev.enqueue_raw_bytes(&vec![7u8]);
    assert!(!irq);
    assert_eq!(dev.read(2), IIR_NONE);
}

#[test]
fn fifo_is_bounded_at_capacity() {
    let mut dev = SerialDevice::new();
    let big = vec![0u8; 100];
    let (taken, _) = dev.enqueue_raw_bytes(&big);
    assert_eq!(taken, 64);
    let (taken_more, _) = dev.enqueue_raw_bytes(&big);
    assert_eq!(taken_more, 0);
}

#[test]
fn rbr_reads_zero_when_empty() {
    let mut dev = SerialDevice::new();
    assert_eq!(dev.read(0), 0);
}

#[test]
fn dlab_switches_divisor_latch() {
    let mut dev = SerialDevice::new();
    // set the divisor latch access bit, then write the divisor
    dev.write(3, 0x80);
    dev.write(0, 0x0c);
    dev.write(1, 0x00);
    // nothing went to the writer
    assert_eq!(dev.drain_output(), Vec::<u8>::new());
    assert_eq!(dev.read(0), 0x0c);
    // clear the latch bit: port 0 is the data register again
    dev.write(3, 0x03);
    assert_eq!(dev.read(0), 0);
}

#[test]
fn scratch_and_modem_status() {
    let mut dev = SerialDevice::new();
    dev.write(7, 0x5a);
    assert_eq!(dev.read(7), 0x5a);
    assert_eq!(dev.read(6), MSR_DEFAULT);
}

#[test]
fn thr_interrupt_follows_enable_bit() {
    let mut dev = SerialDevice::new();
    assert!(!dev.write(0, b'x'));
    dev.write(1, 0x02);
    assert!(dev.write(0, b'y'));
}
