//! Virtio-net device model over the MMIO transport.
//!
//! Models the device-side state of VIRTIO 1.0 feature negotiation and queue
//! activation: the guest driver reads the device's feature bits, offers its
//! own, and moves the status register forward until the device activates.
//! The surrounding binary performs what activation triggers on the host
//! (opening the TAP, registering the queue eventfds, spawning the handler)
//! and routes guest MMIO accesses here.
use vstd::prelude::*;

use crate::numfmt::{append_dec, append_hex, spec_dec, spec_hex};

verus! {

pub const VIRTIO_F_RING_EVENT_IDX: u64 = 29;

pub const VIRTIO_F_VERSION_1: u64 = 32;

pub const VIRTIO_F_IN_ORDER: u64 = 35;

pub const VIRTIO_NET_F_CSUM: u64 = 0;

pub const VIRTIO_NET_F_GUEST_CSUM: u64 = 1;

pub const VIRTIO_NET_F_GUEST_TSO4: u64 = 7;

pub const VIRTIO_NET_F_GUEST_TSO6: u64 = 8;

pub const VIRTIO_NET_F_GUEST_UFO: u64 = 10;

pub const VIRTIO_NET_F_HOST_TSO4: u64 = 11;

pub const VIRTIO_NET_F_HOST_TSO6: u64 = 12;

pub const VIRTIO_NET_F_HOST_UFO: u64 = 14;

/// The feature set the device advertises: VIRTIO 1.0, in-order descriptors,
/// used-ring event suppression, and checksum plus segmentation offloads in
/// both directions.
pub const VIRTIO_NET_DEVICE_FEATURES: u64 = (1u64 << VIRTIO_F_VERSION_1) | (1u64
    << VIRTIO_F_RING_EVENT_IDX) | (1u64 << VIRTIO_F_IN_ORDER) | (1u64 << VIRTIO_NET_F_CSUM) | (1u64
    << VIRTIO_NET_F_GUEST_CSUM) | (1u64 << VIRTIO_NET_F_GUEST_TSO4) | (1u64
    << VIRTIO_NET_F_GUEST_TSO6) | (1u64 << VIRTIO_NET_F_GUEST_UFO) | (1u64
    << VIRTIO_NET_F_HOST_TSO4) | (1u64 << VIRTIO_NET_F_HOST_TSO6) | (1u64 << VIRTIO_NET_F_HOST_UFO);

/// Both virtqueues hold this many descriptors.
pub const VIRTIO_NET_QUEUE_SIZE: u16 = 256;

/// Offset of the queue-notify doorbell register in the MMIO window.
pub const VIRTIO_MMIO_QUEUE_NOTIFY_OFFSET: u64 = 0x50;

/// TAP offload flag: checksum offload.
pub const TUN_F_CSUM: u32 = 1;

/// TAP offload flag: TCP segmentation over IPv4.
pub const TUN_F_TSO4: u32 = 2;

/// TAP offload flag: TCP segmentation over IPv6.
pub const TUN_F_TSO6: u32 = 4;

/// TAP offload flag: UDP fragmentation offload.
pub const TUN_F_UFO: u32 = 16;

/// The TAP offloads matching the advertised feature word.
pub const TAP_OFFLOAD_FLAGS: u32 = TUN_F_CSUM | TUN_F_UFO | TUN_F_TSO4 | TUN_F_TSO6;

/// Device status bit: the driver accepted the offered features.
pub const STATUS_FEATURES_OK: u32 = 8;

/// Device status bit: the driver is ready; the device activates.
pub const STATUS_DRIVER_OK: u32 = 4;

/// Law: the advertised feature word, spelled out. Exactly the bits of
/// `VIRTIO_NET_DEVICE_FEATURES` are set, nothing else.
pub proof fn lemma_device_feature_bits()
    ensures
        VIRTIO_NET_DEVICE_FEATURES == 0x9_2000_5d83u64,
{
    assert((1u64 << 32u64) | (1u64 << 29u64) | (1u64 << 35u64) | (1u64 << 0u64) | (1u64 << 1u64) | (
    1u64 << 7u64) | (1u64 << 8u64) | (1u64 << 10u64) | (1u64 << 11u64) | (1u64 << 12u64) | (1u64
        << 14u64) == 0x9_2000_5d83u64) by (bit_vector);
}

/// One virtqueue's transport state.
#[derive(Debug)]
pub struct QueueState {
    /// Descriptor count the driver chose, at most `VIRTIO_NET_QUEUE_SIZE`.
    pub size: u16,
    /// The driver marked the queue ready.
    pub ready: bool,
}

/// The virtio-net device: its place on the guest bus and the negotiation
/// state the driver walks through.
#[derive(Debug)]
pub struct VirtioNetDevice {
    /// First address of the device's MMIO window.
    pub mmio_start: u64,
    /// Length of the MMIO window.
    pub mmio_len: u64,
    /// The guest IRQ line assigned to the device.
    pub irq: u32,
    /// Name of the host TAP interface backing the device.
    pub tap_name: String,
    /// The device status register as the driver last left it.
    pub device_status: u32,
    /// Which half of the device features register 0x10 reads.
    pub device_features_sel: u32,
    /// Which half of the driver features register 0x20 writes.
    pub driver_features_sel: u32,
    /// The feature word the driver has offered so far.
    pub driver_features: u64,
    /// Which queue the queue registers address.
    pub queue_sel: u32,
    /// Receive queue transport state.
    pub rx_queue: QueueState,
    /// Transmit queue transport state.
    pub tx_queue: QueueState,
    /// Pending interrupt causes.
    pub interrupt_status: u32,
    /// Whether the device has been activated; this happens at most once.
    pub activated: bool,
}

/// The rendering of a window length for the kernel command line: scaled to
/// a whole number of gibi, mebi or kibibytes when exactly divisible, bytes
/// otherwise.
pub open spec fn spec_size_str(size: nat) -> Seq<char> {
    if size % 0x4000_0000 == 0 {
        spec_dec(size / 0x4000_0000) + seq!['G']
    } else if size % 0x10_0000 == 0 {
        spec_dec(size / 0x10_0000) + seq!['M']
    } else if size % 0x400 == 0 {
        spec_dec(size / 0x400) + seq!['K']
    } else {
        spec_dec(size)
    }
}

/// The command-line fragment that makes the kernel probe a virtio MMIO
/// device: a leading space, then
/// `virtio_mmio.device=<len>@0x<start-hex>:<irq>`.
pub open spec fn spec_cmdline_fragment(len: nat, start: nat, irq: nat) -> Seq<char> {
    " virtio_mmio.device="@ + spec_size_str(len) + "@0x"@ + spec_hex(start) + ":"@ + spec_dec(irq)
}

/// Renders a window length with a `K`/`M`/`G` suffix when it divides
/// exactly, as `spec_size_str` describes.
pub fn guestusize_to_str(size: u64) -> (r: String)
    ensures
        r@ == spec_size_str(size as nat),
{
    let mut s = String::new();
    if size % 0x4000_0000 == 0 {
        append_dec(&mut s, size / 0x4000_0000);
        s.append("G");
        proof {
            reveal_strlit("G");
            assert(s@ =~= spec_size_str(size as nat));
        }
    } else if size % 0x10_0000 == 0 {
        append_dec(&mut s, size / 0x10_0000);
        s.append("M");
        proof {
            reveal_strlit("M");
            assert(s@ =~= spec_size_str(size as nat));
        }
    } else if size % 0x400 == 0 {
        append_dec(&mut s, size / 0x400);
        s.append("K");
        proof {
            reveal_strlit("K");
            assert(s@ =~= spec_size_str(size as nat));
        }
    } else {
        append_dec(&mut s, size);
        proof {
            assert(s@ =~= spec_size_str(size as nat));
        }
    }
    s
}

impl VirtioNetDevice {
    /// This device's command-line fragment, rendered from its window and
    /// its IRQ.
    pub open spec fn spec_fragment(&self) -> Seq<char> {
        spec_cmdline_fragment(self.mmio_len as nat, self.mmio_start as nat, self.irq as nat)
    }

    /// The feature word the device advertises.
    pub closed spec fn device_features(&self) -> u64 {
        VIRTIO_NET_DEVICE_FEATURES
    }

    /// The feature word the driver has offered so far.
    pub closed spec fn driver_features(&self) -> u64 {
        self.driver_features
    }

    /// The device status register.
    pub closed spec fn status(&self) -> u32 {
        self.device_status
    }

    /// The device has been activated; that happens at most once.
    pub closed spec fn is_activated(&self) -> bool {
        self.activated
    }

    /// The receive queue's transport state.
    pub closed spec fn rx_queue_state(&self) -> QueueState {
        self.rx_queue
    }

    /// The transmit queue's transport state.
    pub closed spec fn tx_queue_state(&self) -> QueueState {
        self.tx_queue
    }

    /// Queue sizes never exceed the fixed maximum.
    pub open spec fn wf(&self) -> bool {
        &&& self.rx_queue_state().size <= VIRTIO_NET_QUEUE_SIZE
        &&& self.tx_queue_state().size <= VIRTIO_NET_QUEUE_SIZE
    }

    /// A fresh, not yet activated device on the window
    /// `[mmio_start, mmio_start + mmio_len)` with the fixed feature word
    /// and two queues of the fixed size.
    pub fn new(irq: u32, tap_name: String, mmio_start: u64, mmio_len: u64) -> (r: Self)
        ensures
            r.wf(),
            r.device_features() == VIRTIO_NET_DEVICE_FEATURES,
            r.rx_queue_state().size == VIRTIO_NET_QUEUE_SIZE,
            r.tx_queue_state().size == VIRTIO_NET_QUEUE_SIZE,
            !r.rx_queue_state().ready,
            !r.tx_queue_state().ready,
            !r.is_activated(),
            r.status() == 0,
            r.irq == irq,
            r.mmio_start == mmio_start,
            r.mmio_len == mmio_len,
            r.tap_name == tap_name,
    {
        VirtioNetDevice {
            mmio_start,
            mmio_len,
            irq,
            tap_name,
            device_status: 0,
            device_features_sel: 0,
            driver_features_sel: 0,
            driver_features: 0,
            queue_sel: 0,
            rx_queue: QueueState { size: VIRTIO_NET_QUEUE_SIZE, ready: false },
            tx_queue: QueueState { size: VIRTIO_NET_QUEUE_SIZE, ready: false },
            interrupt_status: 0,
            activated: false,
        }
    }

    /// The virtio device type of a network card.
    pub fn device_type(&self) -> (r: u32)
        ensures
            r == 1,
    {
        1
    }

    /// The device's kernel command-line fragment, exactly as
    /// `spec_cmdline_fragment` renders it from the window and the IRQ.
    pub fn cmdline_string(&self) -> (r: String)
        ensures
            r@ == spec_cmdline_fragment(
                self.mmio_len as nat,
                self.mmio_start as nat,
                self.irq as nat,
            ),
    {
        let mut s = String::new();
        s.append(" virtio_mmio.device=");
        let size_part = guestusize_to_str(self.mmio_len);
        s.append(size_part.as_str());
        s.append("@0x");
        append_hex(&mut s, self.mmio_start);
        s.append(":");
        append_dec(&mut s, self.irq as u64);
        proof {
            assert(s@ =~= spec_cmdline_fragment(
                self.mmio_len as nat,
                self.mmio_start as nat,
                self.irq as nat,
            ));
        }
        s
    }

    /// Guest read of the MMIO register at `offset`: the magic value,
    /// transport version 2 and device type 1; the selected half of the
    /// advertised features; the fixed maximum queue size; the selected
    /// queue's readiness; the pending interrupt causes; the device status.
    pub fn mmio_read(&self, offset: u64) -> (r: u32)
        requires
            self.wf(),
        ensures
            offset == 0x00 ==> r == 0x7472_6976u32,
            offset == 0x04 ==> r == 2,
            offset == 0x08 ==> r == 1,
            offset == 0x10 ==> r == (if self.features_sel() == 0 {
                (VIRTIO_NET_DEVICE_FEATURES & 0xffff_ffff) as u32
            } else {
                (VIRTIO_NET_DEVICE_FEATURES >> 32) as u32
            }),
            offset == 0x34 ==> r == VIRTIO_NET_QUEUE_SIZE as u32,
            offset == 0x44 ==> r == (if self.selected_queue_ready() {
                1u32
            } else {
                0u32
            }),
            offset == 0x60 ==> r == self.interrupt_status,
            offset == 0x70 ==> r == self.status(),
    {
        if offset == 0x00 {
            0x7472_6976
        } else if offset == 0x04 {
            2
        } else if offset == 0x08 {
            1
        } else if offset == 0x10 {
            if self.device_features_sel == 0 {
                proof {
                    assert((0x9_2000_5d83u64 & 0xffff_ffffu64) < 0x1_0000_0000u64) by (bit_vector);
                    lemma_device_feature_bits();
                }
                (VIRTIO_NET_DEVICE_FEATURES & 0xffff_ffff) as u32
            } else {
                proof {
                    assert((0x9_2000_5d83u64 >> 32u64) < 0x1_0000_0000u64) by (bit_vector);
                    lemma_device_feature_bits();
                }
                (VIRTIO_NET_DEVICE_FEATURES >> 32) as u32
            }
        } else if offset == 0x34 {
            VIRTIO_NET_QUEUE_SIZE as u32
        } else if offset == 0x44 {
            let q = if self.queue_sel == 0 {
                &self.rx_queue
            } else {
                &self.tx_queue
            };
            if q.ready {
                1
            } else {
                0
            }
        } else if offset == 0x60 {
            self.interrupt_status
        } else if offset == 0x70 {
            self.device_status
        } else {
            0
        }
    }

    /// The device-features bank the driver selected.
    pub closed spec fn features_sel(&self) -> u32 {
        self.device_features_sel
    }

    /// Whether the queue the driver selected is marked ready.
    pub open spec fn selected_queue_ready(&self) -> bool {
        if self.queue_sel_reg() == 0 {
            self.rx_queue_state().ready
        } else {
            self.tx_queue_state().ready
        }
    }

    /// The queue-select register.
    pub closed spec fn queue_sel_reg(&self) -> u32 {
        self.queue_sel
    }

    /// Guest write to the MMIO register at `offset`. Returns true exactly
    /// when this write activates the device.
    ///
    /// Writing the status register with the driver-ready bit activates the
    /// device once both queues are ready and it was not activated before;
    /// a features-ok request is honoured only when the driver's features
    /// are a subset of the advertised word, else the bit stays clear.
    /// A queue-size write above the fixed maximum, or of zero, is ignored.
    /// Queue-notify writes change nothing: after activation the doorbell
    /// is an I/O event on the host, not a register.
    pub fn mmio_write(&mut self, offset: u64, v: u32) -> (activated_now: bool)
        requires
            old(self).wf(),
        ensures
            final(self).wf(),
            final(self).mmio_start == old(self).mmio_start,
            final(self).mmio_len == old(self).mmio_len,
            final(self).irq == old(self).irq,
            final(self).device_features() == old(self).device_features(),
            activated_now ==> !old(self).is_activated() && final(self).is_activated(),
            old(self).is_activated() ==> final(self).is_activated(),
            offset == 0x14 ==> final(self).features_sel() == v,
            offset == 0x20 ==> final(self).driver_features() == (if old(self).driver_sel() == 0 {
                (old(self).driver_features() & 0xffff_ffff_0000_0000) | (v as u64)
            } else {
                (old(self).driver_features() & 0xffff_ffff) | ((v as u64) << 32)
            }),
            offset == 0x30 ==> final(self).queue_sel_reg() == v,
            offset != 0x30 ==> final(self).queue_sel_reg() == old(self).queue_sel_reg(),
            offset != 0x20 ==> final(self).driver_features() == old(self).driver_features(),
            offset == 0x38 && 1 <= v <= VIRTIO_NET_QUEUE_SIZE && old(self).queue_sel_reg() == 0
                ==> final(self).rx_queue_state() == (QueueState {
                size: v as u16,
                ready: old(self).rx_queue_state().ready,
            }),
            offset == 0x38 && 1 <= v <= VIRTIO_NET_QUEUE_SIZE && old(self).queue_sel_reg() != 0
                ==> final(self).tx_queue_state() == (QueueState {
                size: v as u16,
                ready: old(self).tx_queue_state().ready,
            }),
            offset == 0x38 && !(1 <= v <= VIRTIO_NET_QUEUE_SIZE) ==> final(self).rx_queue_state()
                == old(self).rx_queue_state() && final(self).tx_queue_state() == old(
                self,
            ).tx_queue_state(),
            !(offset == 0x38 || offset == 0x44) ==> final(self).rx_queue_state() == old(
                self,
            ).rx_queue_state() && final(self).tx_queue_state() == old(self).tx_queue_state(),
            offset == 0x44 && old(self).queue_sel_reg() == 0 ==> final(self).tx_queue_state()
                == old(self).tx_queue_state(),
            offset == 0x44 && old(self).queue_sel_reg() != 0 ==> final(self).rx_queue_state()
                == old(self).rx_queue_state(),
            offset == 0x44 && old(self).queue_sel_reg() == 0 ==> final(self).rx_queue_state().ready
                == (v == 1),
            offset == 0x44 && old(self).queue_sel_reg() != 0 ==> final(self).tx_queue_state().ready
                == (v == 1),
            offset == 0x50 ==> *final(self) == *old(self) && !activated_now,
            offset == 0x70 ==> {
                &&& activated_now == (v & STATUS_DRIVER_OK != 0 && !old(self).is_activated() && old(
                    self,
                ).rx_queue_state().ready && old(self).tx_queue_state().ready)
                &&& (v & STATUS_FEATURES_OK != 0 && old(self).driver_features()
                    & !VIRTIO_NET_DEVICE_FEATURES != 0) ==> final(self).status() == (v
                    & !STATUS_FEATURES_OK)
                &&& !(v & STATUS_FEATURES_OK != 0 && old(self).driver_features()
                    & !VIRTIO_NET_DEVICE_FEATURES != 0) ==> final(self).status() == v
            },
            !(offset == 0x70) ==> activated_now == false && final(self).is_activated() == old(
                self,
            ).is_activated(),
    {
        if offset == 0x14 {
            self.device_features_sel = v;
            false
        } else if offset == 0x20 {
            if self.driver_features_sel == 0 {
                self.driver_features = (self.driver_features & 0xffff_ffff_0000_0000) | (v as u64);
            } else {
                self.driver_features = (self.driver_features & 0xffff_ffff) | ((v as u64) << 32);
            }
            false
        } else if offset == 0x24 {
            self.driver_features_sel = v;
            false
        } else if offset == 0x30 {
            self.queue_sel = v;
            false
        } else if offset == 0x38 {
            if v >= 1 && v <= VIRTIO_NET_QUEUE_SIZE as u32 {
                if self.queue_sel == 0 {
                    self.rx_queue = QueueState { size: v as u16, ready: self.rx_queue.ready };
                } else {
                    self.tx_queue = QueueState { size: v as u16, ready: self.tx_queue.ready };
                }
            }
            false
        } else if offset == 0x44 {
            if self.queue_sel == 0 {
                self.rx_queue = QueueState { size: self.rx_queue.size, ready: v == 1 };
            } else {
                self.tx_queue = QueueState { size: self.tx_queue.size, ready: v == 1 };
            }
            false
        } else if offset == 0x64 {
            self.interrupt_status = self.interrupt_status & !v;
            false
        } else if offset == 0x70 {
            let features_ok_refused = v & STATUS_FEATURES_OK != 0 && self.driver_features
                & !VIRTIO_NET_DEVICE_FEATURES != 0;
            if features_ok_refused {
                self.device_status = v & !STATUS_FEATURES_OK;
            } else {
                self.device_status = v;
            }
            let activate = v & STATUS_DRIVER_OK != 0 && !self.activated && self.rx_queue.ready
                && self.tx_queue.ready;
            if activate {
                self.activated = true;
            }
            activate
        } else {
            false
        }
    }

    /// The driver-features bank the driver selected.
    pub closed spec fn driver_sel(&self) -> u32 {
        self.driver_features_sel
    }
}

} // verus!
