//! 8250 UART model.
//!
//! Emulates the serial console's register file at I/O ports
//! `0x3F8..=0x3FF`: guest writes to the transmitter holding register queue
//! bytes for the host writer, guest reads of the receiver buffer register
//! drain a bounded FIFO that the host's stdin feeds. The surrounding binary
//! forwards the queued output to the real writer and raises the interrupt
//! eventfd when a call here asks for it.
use vstd::prelude::*;

verus! {

/// First I/O port of the serial device.
pub const SERIAL_PORT_BASE: u16 = 0x3f8;

/// Last I/O port of the serial device.
pub const SERIAL_PORT_LAST: u16 = 0x3ff;

/// Capacity of the receive FIFO.
pub const SERIAL_FIFO_CAPACITY: usize = 64;

/// Line status: transmitter empty and holding register empty.
pub const LSR_IDLE: u8 = 0x60;

/// Modem status reported to the guest: clear-to-send, data-set-ready and
/// carrier-detect high.
pub const MSR_DEFAULT: u8 = 0xb0;

/// Interrupt identification: no interrupt pending.
pub const IIR_NONE: u8 = 0x01;

/// Interrupt identification: received data available.
pub const IIR_RX_DATA: u8 = 0x04;

#[derive(Debug)]
pub struct SerialDevice {
    dll: u8,
    dlm: u8,
    ier: u8,
    lcr: u8,
    mcr: u8,
    scr: u8,
    in_fifo: Vec<u8>,
    out_pending: Vec<u8>,
}

impl SerialDevice {
    /// The receive FIFO, next byte to be read first.
    pub closed spec fn rx_fifo(&self) -> Seq<u8> {
        self.in_fifo@
    }

    /// Bytes the guest has transmitted and the host writer has not yet
    /// taken, oldest first.
    pub closed spec fn tx_pending(&self) -> Seq<u8> {
        self.out_pending@
    }

    /// The interrupt-enable register as last written by the guest.
    pub closed spec fn ier_reg(&self) -> u8 {
        self.ier
    }

    /// The line-control register; bit 7 is the divisor latch access bit.
    pub closed spec fn lcr_reg(&self) -> u8 {
        self.lcr
    }

    /// The modem-control register as last written by the guest.
    pub closed spec fn mcr_reg(&self) -> u8 {
        self.mcr
    }

    /// The scratch register as last written by the guest.
    pub closed spec fn scr_reg(&self) -> u8 {
        self.scr
    }

    /// The divisor latch, low byte.
    pub closed spec fn dll_reg(&self) -> u8 {
        self.dll
    }

    /// The divisor latch, high byte.
    pub closed spec fn dlm_reg(&self) -> u8 {
        self.dlm
    }

    /// The divisor latch is mapped over ports 0 and 1 while bit 7 of the
    /// line-control register is set.
    pub open spec fn dlab_set(&self) -> bool {
        self.lcr_reg() & 0x80 != 0
    }

    /// Receive-data interrupts are enabled.
    pub open spec fn rx_irq_enabled(&self) -> bool {
        self.ier_reg() & 0x01 != 0
    }

    /// Transmitter-empty interrupts are enabled.
    pub open spec fn tx_irq_enabled(&self) -> bool {
        self.ier_reg() & 0x02 != 0
    }

    /// The FIFO holds no more than its capacity.
    pub open spec fn wf(&self) -> bool {
        self.rx_fifo().len() <= SERIAL_FIFO_CAPACITY
    }

    /// A fresh device: empty FIFO, nothing pending, all registers zero,
    /// the divisor latch closed and every interrupt source disabled.
    pub fn new() -> (r: Self)
        ensures
            r.wf(),
            r.rx_fifo() == Seq::<u8>::empty(),
            r.tx_pending() == Seq::<u8>::empty(),
            r.ier_reg() == 0,
            r.lcr_reg() == 0,
            !r.dlab_set(),
            !r.rx_irq_enabled(),
            !r.tx_irq_enabled(),
    {
        proof {
            assert(0u8 & 0x80u8 == 0u8) by (bit_vector);
            assert(0u8 & 0x01u8 == 0u8) by (bit_vector);
            assert(0u8 & 0x02u8 == 0u8) by (bit_vector);
        }
        SerialDevice {
            dll: 0,
            dlm: 0,
            ier: 0,
            lcr: 0,
            mcr: 0,
            scr: 0,
            in_fifo: Vec::new(),
            out_pending: Vec::new(),
        }
    }

    /// Guest write to register `offset` (port minus `SERIAL_PORT_BASE`).
    ///
    /// A write to the transmitter holding register appends exactly that byte
    /// to the pending output, in order; it asks for an interrupt when
    /// transmitter-empty interrupts are enabled. Other writes store into the
    /// addressed register and change neither FIFO.
    pub fn write(&mut self, offset: u16, value: u8) -> (irq: bool)
        requires
            offset < 8,
            old(self).wf(),
        ensures
            final(self).wf(),
            final(self).rx_fifo() == old(self).rx_fifo(),
            // the transmitter holding register: the byte joins the output
            (offset == 0 && !old(self).dlab_set()) ==> {
                &&& final(self).tx_pending() == old(self).tx_pending().push(value)
                &&& irq == old(self).tx_irq_enabled()
            },
            !(offset == 0 && !old(self).dlab_set()) ==> {
                &&& final(self).tx_pending() == old(self).tx_pending()
                &&& irq == false
            },
            (offset == 1 && !old(self).dlab_set()) ==> final(self).ier_reg() == value,
            offset == 3 ==> final(self).lcr_reg() == value,
            offset != 3 ==> final(self).lcr_reg() == old(self).lcr_reg(),
            offset != 1 || old(self).dlab_set() ==> final(self).ier_reg() == old(self).ier_reg(),
            (offset == 0 && old(self).dlab_set()) ==> final(self).dll_reg() == value,
            (offset == 1 && old(self).dlab_set()) ==> final(self).dlm_reg() == value,
            offset == 4 ==> final(self).mcr_reg() == value,
            offset == 7 ==> final(self).scr_reg() == value,
            !(offset == 0 && old(self).dlab_set()) ==> final(self).dll_reg() == old(self).dll_reg(),
            !(offset == 1 && old(self).dlab_set()) ==> final(self).dlm_reg() == old(self).dlm_reg(),
            offset != 4 ==> final(self).mcr_reg() == old(self).mcr_reg(),
            offset != 7 ==> final(self).scr_reg() == old(self).scr_reg(),
    {
        let dlab = self.lcr & 0x80 != 0;
        if offset == 0 {
            if dlab {
                self.dll = value;
                false
            } else {
                self.out_pending.push(value);
                self.ier & 0x02 != 0
            }
        } else if offset == 1 {
            if dlab {
                self.dlm = value;
            } else {
                self.ier = value;
            }
            false
        } else if offset == 3 {
            self.lcr = value;
            false
        } else if offset == 4 {
            self.mcr = value;
            false
        } else if offset == 7 {
            self.scr = value;
            false
        } else {
            // FCR writes and the read-only line/modem status are ignored.
            false
        }
    }

    /// Guest read of register `offset`.
    ///
    /// Reading the receiver buffer register returns the oldest FIFO byte and
    /// removes it (0 when the FIFO is empty); the line status register
    /// reports data-ready exactly while the FIFO is non-empty.
    pub fn read(&mut self, offset: u16) -> (value: u8)
        requires
            offset < 8,
            old(self).wf(),
        ensures
            final(self).wf(),
            final(self).tx_pending() == old(self).tx_pending(),
            final(self).ier_reg() == old(self).ier_reg(),
            final(self).lcr_reg() == old(self).lcr_reg(),
            // the receiver buffer register drains the FIFO front
            (offset == 0 && !old(self).dlab_set() && old(self).rx_fifo().len() > 0) ==> {
                &&& value == old(self).rx_fifo()[0]
                &&& final(self).rx_fifo() == old(self).rx_fifo().skip(1)
            },
            (offset == 0 && !old(self).dlab_set() && old(self).rx_fifo().len() == 0) ==> {
                &&& value == 0
                &&& final(self).rx_fifo() == old(self).rx_fifo()
            },
            !(offset == 0 && !old(self).dlab_set()) ==> final(self).rx_fifo() == old(
                self,
            ).rx_fifo(),
            offset == 5 ==> value == (LSR_IDLE | (if old(self).rx_fifo().len() > 0 {
                1u8
            } else {
                0u8
            })),
            offset == 6 ==> value == MSR_DEFAULT,
            offset == 2 ==> value == (if old(self).rx_irq_enabled() && old(
                self,
            ).rx_fifo().len() > 0 {
                IIR_RX_DATA
            } else {
                IIR_NONE
            }),
            (offset == 0 && old(self).dlab_set()) ==> value == old(self).dll_reg(),
            offset == 1 ==> value == (if old(self).dlab_set() {
                old(self).dlm_reg()
            } else {
                old(self).ier_reg()
            }),
            offset == 3 ==> value == old(self).lcr_reg(),
            offset == 4 ==> value == old(self).mcr_reg(),
            offset == 7 ==> value == old(self).scr_reg(),
            final(self).mcr_reg() == old(self).mcr_reg(),
            final(self).scr_reg() == old(self).scr_reg(),
            final(self).dll_reg() == old(self).dll_reg(),
            final(self).dlm_reg() == old(self).dlm_reg(),
    {
        let dlab = self.lcr & 0x80 != 0;
        if offset == 0 {
            if dlab {
                self.dll
            } else {
                if self.in_fifo.len() > 0 {
                    let b = self.in_fifo.remove(0);
                    proof {
                        assert(final(self).rx_fifo() =~= old(self).rx_fifo().skip(1));
                    }
                    b
                } else {
                    0
                }
            }
        } else if offset == 1 {
            if dlab {
                self.dlm
            } else {
                self.ier
            }
        } else if offset == 2 {
            if self.ier & 0x01 != 0 && self.in_fifo.len() > 0 {
                IIR_RX_DATA
            } else {
                IIR_NONE
            }
        } else if offset == 3 {
            self.lcr
        } else if offset == 4 {
            self.mcr
        } else if offset == 5 {
            let data_ready: u8 = if self.in_fifo.len() > 0 {
                1
            } else {
                0
            };
            LSR_IDLE | data_ready
        } else if offset == 6 {
            MSR_DEFAULT
        } else {
            self.scr
        }
    }

    /// Feeds host-side input into the receive FIFO.
    ///
    /// Appends as many of `bytes` as fit under the capacity, in order, and
    /// returns how many were taken, together with the interrupt request: the
    /// IRQ is raised when the FIFO turns from empty to non-empty while
    /// receive-data interrupts are enabled.
    pub fn enqueue_raw_bytes(&mut self, bytes: &Vec<u8>) -> (r: (usize, bool))
        requires
            old(self).wf(),
        ensures
            final(self).wf(),
            r.0 as int == if bytes@.len() <= SERIAL_FIFO_CAPACITY - old(self).rx_fifo().len() {
                bytes@.len() as int
            } else {
                SERIAL_FIFO_CAPACITY - old(self).rx_fifo().len()
            },
            final(self).rx_fifo() == old(self).rx_fifo() + bytes@.take(r.0 as int),
            final(self).tx_pending() == old(self).tx_pending(),
            final(self).ier_reg() == old(self).ier_reg(),
            final(self).lcr_reg() == old(self).lcr_reg(),
            r.1 == (old(self).rx_fifo().len() == 0 && r.0 > 0 && old(self).rx_irq_enabled()),
    {
        let was_empty = self.in_fifo.len() == 0;
        let room = SERIAL_FIFO_CAPACITY - self.in_fifo.len();
        let take: usize = if bytes.len() <= room {
            bytes.len()
        } else {
            room
        };
        let mut i: usize = 0;
        while i < take
            invariant
                i <= take,
                take <= bytes@.len(),
                old(self).rx_fifo().len() + take <= SERIAL_FIFO_CAPACITY,
                self.in_fifo@ == old(self).rx_fifo() + bytes@.take(i as int),
                self.out_pending@ == old(self).tx_pending(),
                self.ier == old(self).ier_reg(),
                self.lcr == old(self).lcr_reg(),
                self.dll == old(self).dll,
                self.dlm == old(self).dlm,
                self.mcr == old(self).mcr,
                self.scr == old(self).scr,
            decreases take - i,
        {
            self.in_fifo.push(bytes[i]);
            proof {
                assert(self.in_fifo@ =~= old(self).rx_fifo() + bytes@.take(i + 1));
            }
            i = i + 1;
        }
        let irq = was_empty && take > 0 && self.ier & 0x01 != 0;
        (take, irq)
    }

    /// Hands the queued transmitter output to the host writer and clears it.
    pub fn drain_output(&mut self) -> (out: Vec<u8>)
        requires
            old(self).wf(),
        ensures
            final(self).wf(),
            out@ == old(self).tx_pending(),
            final(self).tx_pending() == Seq::<u8>::empty(),
            final(self).rx_fifo() == old(self).rx_fifo(),
            final(self).ier_reg() == old(self).ier_reg(),
            final(self).lcr_reg() == old(self).lcr_reg(),
    {
        let mut out: Vec<u8> = Vec::new();
        core::mem::swap(&mut out, &mut self.out_pending);
        out
    }
}

/// The pending output after the guest writes `bs` to the transmitter holding
/// register, byte by byte, starting from `out`.
pub open spec fn tx_after_writes(out: Seq<u8>, bs: Seq<u8>) -> Seq<u8>
    decreases bs.len(),
{
    if bs.len() == 0 {
        out
    } else {
        tx_after_writes(out.push(bs[0]), bs.skip(1))
    }
}

/// Law: writing `N` bytes to the transmitter holding register queues exactly
/// those `N` bytes for the host writer, in order.
pub proof fn lemma_serial_tx_in_order(out: Seq<u8>, bs: Seq<u8>)
    ensures
        tx_after_writes(out, bs) == out + bs,
    decreases bs.len(),
{
    if bs.len() == 0 {
        assert(tx_after_writes(out, bs) =~= out + bs);
    } else {
        lemma_serial_tx_in_order(out.push(bs[0]), bs.skip(1));
        assert(out.push(bs[0]) + bs.skip(1) =~= out + bs);
    }
}

/// Law: bytes enqueued from the host are read back at the receiver buffer
/// register in the same order: draining a FIFO holding `fifo` for `k` reads
/// yields its first `k` bytes unchanged.
pub proof fn lemma_serial_rx_in_order(fifo: Seq<u8>, k: int)
    requires
        0 <= k <= fifo.len(),
    ensures
        fifo.take(k) + fifo.skip(k) == fifo,
{
    assert(fifo.take(k) + fifo.skip(k) =~= fifo);
}

} // verus!
