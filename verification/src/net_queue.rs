//! Virtqueue frame handling for the net device.
//!
//! The data-plane decisions of the queue handler, on plain byte strings:
//! stripping the virtio-net header from a transmitted frame before it goes
//! to the TAP, prefixing a received frame with a fresh header, and the
//! used-ring event-index rule that decides whether the device may suppress
//! the interrupt after adding used descriptors. The surrounding binary
//! walks the rings in guest memory and moves the bytes.
use vstd::prelude::*;

use crate::Error;

verus! {

/// Size of the virtio-net header that precedes every frame on a queue.
pub const VIRTIO_NET_HDR_SIZE: usize = 12;

/// Index of the receive queue.
pub const RXQ_INDEX: u16 = 0;

/// Index of the transmit queue.
pub const TXQ_INDEX: u16 = 1;

/// The header the device writes in front of every received frame: no
/// checksum or segmentation claims, one buffer.
pub open spec fn spec_rx_header() -> Seq<u8> {
    seq![0u8, 0u8, 0u8, 0u8, 0u8, 0u8, 0u8, 0u8, 0u8, 0u8, 1u8, 0u8]
}

/// Strips the virtio-net header from a transmitted frame: returns the
/// payload behind the first twelve bytes, unchanged and in order. A frame
/// shorter than the header is malformed and rejected with `Virtio`.
pub fn strip_tx_frame(frame: &Vec<u8>) -> (r: Result<Vec<u8>, Error>)
    ensures
        r is Ok <==> frame@.len() >= VIRTIO_NET_HDR_SIZE,
        r matches Ok(payload) ==> payload@ == frame@.skip(VIRTIO_NET_HDR_SIZE as int),
        r matches Err(e) ==> e == Error::Virtio,
{
    if frame.len() < VIRTIO_NET_HDR_SIZE {
        return Err(Error::Virtio);
    }
    let mut payload: Vec<u8> = Vec::new();
    let mut i: usize = VIRTIO_NET_HDR_SIZE;
    while i < frame.len()
        invariant
            VIRTIO_NET_HDR_SIZE <= i <= frame@.len(),
            payload@ == frame@.subrange(VIRTIO_NET_HDR_SIZE as int, i as int),
        decreases frame@.len() - i,
    {
        payload.push(frame[i]);
        proof {
            assert(payload@ =~= frame@.subrange(VIRTIO_NET_HDR_SIZE as int, i + 1));
        }
        i = i + 1;
    }
    proof {
        assert(payload@ =~= frame@.skip(VIRTIO_NET_HDR_SIZE as int));
    }
    Ok(payload)
}

/// Prefixes a frame read from the TAP with the virtio-net header the guest
/// expects: twelve header bytes claiming nothing (one buffer, no offloads),
/// then the frame unchanged.
pub fn build_rx_frame(frame: &Vec<u8>) -> (r: Vec<u8>)
    ensures
        r@ == spec_rx_header() + frame@,
        r@.len() == VIRTIO_NET_HDR_SIZE + frame@.len(),
{
    let mut r: Vec<u8> = Vec::new();
    let mut i: usize = 0;
    while i < 10
        invariant
            i <= 10,
            r@ == spec_rx_header().take(i as int),
        decreases 10 - i,
    {
        r.push(0);
        proof {
            assert(r@ =~= spec_rx_header().take(i + 1));
        }
        i = i + 1;
    }
    r.push(1);
    r.push(0);
    proof {
        assert(r@ =~= spec_rx_header());
    }
    let mut j: usize = 0;
    while j < frame.len()
        invariant
            j <= frame@.len(),
            r@ == spec_rx_header() + frame@.take(j as int),
        decreases frame@.len() - j,
    {
        r.push(frame[j]);
        proof {
            assert(r@ =~= spec_rx_header() + frame@.take(j + 1));
        }
        j = j + 1;
    }
    proof {
        assert(r@ =~= spec_rx_header() + frame@);
    }
    r
}

/// A 16-bit ring index wrapped into its space.
pub open spec fn wrap16(x: int) -> int {
    x % 0x1_0000
}

/// The ring distance from `b` to `a`, modulo the 16-bit index space.
pub open spec fn ring_distance(a: int, b: int) -> int {
    (a + 0x1_0000 - b) % 0x1_0000
}

/// The used-ring event-index rule of VIRTIO 1.0: after moving the used
/// index from `old_used` to `new_used`, the device raises the interrupt
/// exactly when the driver's `used_event` mark lies inside the window that
/// was just published.
pub open spec fn spec_needs_signal(used_event: u16, new_used: u16, old_used: u16) -> bool {
    ring_distance(new_used as int, wrap16(used_event + 1)) < ring_distance(
        new_used as int,
        old_used as int,
    )
}

/// Decides whether to raise the guest IRQ after the used index moved from
/// `old_used` to `new_used`, honouring the driver's `used_event`
/// suppression mark.
pub fn needs_interrupt(used_event: u16, new_used: u16, old_used: u16) -> (r: bool)
    ensures
        r == spec_needs_signal(used_event, new_used, old_used),
{
    let ue1: u32 = if used_event == 0xffff {
        0
    } else {
        used_event as u32 + 1
    };
    proof {
        if used_event == 0xffff {
            assert(wrap16(used_event + 1) == 0) by {
                vstd::arithmetic::div_mod::lemma_mod_self_0(0x1_0000);
            }
        } else {
            assert(wrap16(used_event + 1) == used_event + 1) by {
                vstd::arithmetic::div_mod::lemma_small_mod((used_event + 1) as nat, 0x1_0000);
            }
        }
    }
    let a: u32 = (new_used as u32 + 0x1_0000 - ue1) % 0x1_0000;
    let b: u32 = (new_used as u32 + 0x1_0000 - old_used as u32) % 0x1_0000;
    a < b
}

} // verus!
