//! The VMM: lifecycle and wiring of the components.
//!
//! Owns the device models and allocators, walks the lifecycle
//! `new -> add_net_device? -> configure -> run -> stop`, and computes the
//! configuration plans the surrounding binary turns into hypervisor calls.
//! Everything the guest's behaviour depends on is decided here; the binary
//! only carries the decisions out.
use vstd::prelude::*;

use crate::cmdline::{assemble_cmdline, default_cmdline, spec_joined};
use crate::irq_allocator::IrqAllocator;
use crate::memory::{build_e820, e820_below_gap, E820Entry, HIMEM_START, ZERO_PAGE_START};
use crate::mmio_allocator::{
    free_run_exists, is_power_of_two, range_in_window, ranges_disjoint, MmioAddressAllocator,
};
use crate::mptable::{checksum_ok, setup_mptable, MpTable};
use crate::net_device::{spec_cmdline_fragment, VirtioNetDevice};
use crate::serial::SerialDevice;
use crate::vcpu::{
    build_page_tables, configure_regs, configure_sregs, flat_segment, long_mode_ready, PML4_START,
    TableWrite, VcpuRegs, VcpuSregs,
};
use crate::{Error, MMIO_GAP_SIZE, MMIO_GAP_START};

verus! {

/// Size of the window the device allocator carves MMIO ranges from: the
/// whole reserved gap.
pub const MMIO_WINDOW_SIZE: u64 = MMIO_GAP_SIZE;

/// Size and alignment of one device's MMIO range.
pub const MMIO_DEVICE_RANGE_SIZE: u64 = 0x1000;

/// First guest IRQ line handed to devices; lines 0 to 4 stay reserved,
/// line 4 belongs to the serial console.
pub const FIRST_DEVICE_IRQ: u32 = 5;

/// Guest IRQ line of the serial console.
pub const SERIAL_IRQ: u32 = 4;

/// Timeout of one event-loop turn, so shutdown stays responsive even
/// under silence.
pub const EVENT_LOOP_TIMEOUT_MS: i32 = 100;

/// Where a VMM stands in its life.
#[derive(Clone, Copy, Debug, PartialEq, Eq, Structural)]
pub enum VmmPhase {
    /// Fresh; devices may still be added.
    Created,
    /// `configure` has succeeded; the VM may run.
    Configured,
    /// The VM is running.
    Running,
    /// `stop` was called or the guest shut down; the VMM is spent.
    Stopped,
}

/// Everything one vCPU is initialized with before its first run.
#[derive(Debug)]
pub struct VcpuPlan {
    pub index: u8,
    pub regs: VcpuRegs,
    pub sregs: VcpuSregs,
}

/// The outcome of `configure`: what the surrounding binary writes into
/// guest memory and loads into each vCPU.
#[derive(Debug)]
pub struct VmConfig {
    /// The full kernel command line: the recommended base plus every
    /// device fragment, in order.
    pub cmdline: String,
    /// The MP structures describing the vCPUs and the I/O APIC.
    pub mptable: MpTable,
    /// The identity-mapped page tables, as word writes.
    pub page_tables: Vec<TableWrite>,
    /// The E820 map for the guest's RAM size.
    pub e820: Vec<E820Entry>,
    /// One plan per vCPU.
    pub vcpus: Vec<VcpuPlan>,
}

pub struct VMM {
    /// The serial console model.
    pub serial: SerialDevice,
    /// The optional virtio-net device model.
    pub net: Option<VirtioNetDevice>,
    /// Command-line fragments contributed by devices, in order of addition.
    pub cmdline_components: Vec<String>,
    /// Hands out guest IRQ lines to devices.
    pub irq_allocator: IrqAllocator,
    /// Carves device windows out of the MMIO gap.
    pub mmio_allocator: MmioAddressAllocator,
    /// Where the VMM stands in its life.
    pub phase: VmmPhase,
    /// The run loop keeps going while this holds.
    pub running: bool,
    /// Bytes of guest RAM requested at creation.
    pub mem_size: u64,
    /// vCPU count fixed by `configure`; zero before that.
    pub num_vcpus: u8,
}

/// The VMM with its life ended: the phase is spent and the running flag
/// clear; everything else keeps its value.
pub open spec fn spec_stopped(v: VMM) -> VMM {
    VMM { phase: VmmPhase::Stopped, running: false, ..v }
}

impl VMM {
    /// The components hold their invariants, and the device allocator
    /// carves from the fixed MMIO gap.
    pub open spec fn wf(&self) -> bool {
        &&& self.serial.wf()
        &&& self.mmio_allocator.wf()
        &&& self.mmio_allocator.window() == (
            MMIO_GAP_START,
            (MMIO_GAP_START + MMIO_WINDOW_SIZE - 1) as u64,
        )
        &&& match self.net {
            Some(n) => n.wf(),
            None => true,
        }
    }

    /// A fresh VMM for `memory_size` bytes of guest RAM: empty serial
    /// console, no net device, no fragments, device IRQs starting at 5 and
    /// an untouched MMIO window at the start of the gap.
    pub fn new(memory_size: u64) -> (r: Result<Self, Error>)
        ensures
            r is Ok,
            r matches Ok(v) ==> {
                &&& v.wf()
                &&& v.phase == VmmPhase::Created
                &&& !v.running
                &&& v.net is None
                &&& v.mem_size == memory_size
                &&& v.num_vcpus == 0
                &&& v.cmdline_components@.len() == 0
                &&& v.irq_allocator.next_irq() == FIRST_DEVICE_IRQ
                &&& v.mmio_allocator.window() == (
                    MMIO_GAP_START,
                    (MMIO_GAP_START + MMIO_WINDOW_SIZE - 1) as u64,
                )
                &&& v.mmio_allocator.ranges() == Set::<(u64, u64)>::empty()
                &&& v.serial.rx_fifo().len() == 0
                &&& v.serial.tx_pending().len() == 0
            },
    {
        let mmio_allocator = match MmioAddressAllocator::new(MMIO_GAP_START, MMIO_WINDOW_SIZE) {
            Ok(a) => a,
            // the window is a fixed non-empty range, so this cannot fail
            Err(e) => {
                return Err(e);
            },
        };
        Ok(
            VMM {
                serial: SerialDevice::new(),
                net: Option::None,
                cmdline_components: Vec::new(),
                irq_allocator: IrqAllocator::new(FIRST_DEVICE_IRQ),
                mmio_allocator,
                phase: VmmPhase::Created,
                running: false,
                mem_size: memory_size,
                num_vcpus: 0,
            },
        )
    }

    /// Adds a virtio-net device backed by the host TAP interface
    /// `tap_name`. Must precede `configure`.
    ///
    /// On success the device sits on a fresh page-sized, page-aligned MMIO
    /// range inside the window, disjoint from every range handed out
    /// before, the allocator records exactly that range as taken, the
    /// device gets the next free IRQ line, and its command-line fragment
    /// is appended to the components. Called out of order it fails with
    /// `Virtio`; an exhausted window fails with `AddressAllocation`, and
    /// nothing changes. While the VMM is fresh and an aligned page of the
    /// window is still free, the call succeeds.
    pub fn add_net_device(&mut self, tap_name: String) -> (r: Result<(), Error>)
        requires
            old(self).wf(),
            old(self).irq_allocator.next_irq() < u32::MAX,
        ensures
            final(self).wf(),
            final(self).phase == old(self).phase,
            final(self).running == old(self).running,
            final(self).mem_size == old(self).mem_size,
            final(self).serial == old(self).serial,
            final(self).mmio_allocator.window() == old(self).mmio_allocator.window(),
            (old(self).phase == VmmPhase::Created && free_run_exists(
                old(self).mmio_allocator.ranges(),
                old(self).mmio_allocator.window(),
                MMIO_DEVICE_RANGE_SIZE,
                MMIO_DEVICE_RANGE_SIZE,
            )) ==> r is Ok,
            match r {
                Ok(()) => {
                    &&& old(self).phase == VmmPhase::Created
                    &&& final(self).net matches Some(n) && {
                        &&& n.mmio_len == MMIO_DEVICE_RANGE_SIZE
                        &&& n.mmio_start as int % MMIO_DEVICE_RANGE_SIZE as int == 0
                        &&& range_in_window(
                            (n.mmio_start, (n.mmio_start + n.mmio_len - 1) as u64),
                            old(self).mmio_allocator.window(),
                        )
                        &&& forall|p: (u64, u64)|
                            #[trigger] old(self).mmio_allocator.ranges().contains(p)
                                ==> ranges_disjoint(
                                p,
                                (n.mmio_start, (n.mmio_start + n.mmio_len - 1) as u64),
                            )
                        &&& n.irq == old(self).irq_allocator.next_irq()
                        &&& !n.is_activated()
                        &&& n.tap_name == tap_name
                        &&& final(self).cmdline_components@.len() == old(self).cmdline_components@.len() + 1
                        &&& final(self).cmdline_components@.last()@ == n.spec_fragment()
                        &&& forall|j: int|
                            0 <= j < old(self).cmdline_components@.len() ==> final(self).cmdline_components@[j] == #[trigger] old(self).cmdline_components@[j]
                        &&& final(self).mmio_allocator.ranges() == old(
                            self,
                        ).mmio_allocator.ranges().insert(
                            (n.mmio_start, (n.mmio_start + n.mmio_len - 1) as u64),
                        )
                    }
                    &&& final(self).irq_allocator.next_irq() == old(self).irq_allocator.next_irq() + 1
                },
                Err(e) => {
                    &&& (e == Error::Virtio <==> old(self).phase != VmmPhase::Created)
                    &&& (e == Error::Virtio || e == Error::AddressAllocation)
                    &&& final(self).net == old(self).net
                    &&& final(self).cmdline_components@ == old(self).cmdline_components@
                    &&& final(self).irq_allocator == old(self).irq_allocator
                    &&& final(self).mmio_allocator.ranges() == old(self).mmio_allocator.ranges()
                },
            },
    {
        if !matches!(self.phase, VmmPhase::Created) {
            return Err(Error::Virtio);
        }
        proof {
            assert(1u64 << 12u64 == 0x1000u64) by (bit_vector);
            assert(is_power_of_two(MMIO_DEVICE_RANGE_SIZE)) by {
                let k: int = 12;
                assert(k as u64 == 12u64);
                assert(MMIO_DEVICE_RANGE_SIZE == 1u64 << (k as u64));
            }
        }
        let range = match self.mmio_allocator.allocate(
            MMIO_DEVICE_RANGE_SIZE,
            MMIO_DEVICE_RANGE_SIZE,
        ) {
            Ok(range) => range,
            Err(e) => {
                return Err(e);
            },
        };
        let irq = self.irq_allocator.allocate();
        let net = VirtioNetDevice::new(irq, tap_name, range.0, MMIO_DEVICE_RANGE_SIZE);
        let fragment = net.cmdline_string();
        self.cmdline_components.push(fragment);
        self.net = Option::Some(net);
        Ok(())
    }

    /// Configures the VM for `num_vcpus` processors whose execution starts
    /// at `kernel_load`: assembles the full command line, the E820 map, the
    /// MP-table, the long-mode page tables and one register plan per vCPU,
    /// and moves the VMM to its configured phase.
    ///
    /// Succeeds exactly once, on a fresh VMM whose memory fits between the
    /// high-memory base and the MMIO gap, with at least one vCPU: a second
    /// call fails with `AlreadyConfigured`, an ill-sized memory request
    /// with `HimemStartPastMemEnd` (an oversized one is rejected, never
    /// capped), a zero vCPU count with `Mptable`; a failed call changes
    /// nothing. Every planned vCPU starts at the kernel entry with the zero
    /// page's address in `rsi`, the long-mode control bits set, the page
    /// tables in `cr3` and flat segments, and the planned RAM never reaches
    /// into the gap.
    pub fn configure(&mut self, num_vcpus: u8, kernel_load: u64) -> (r: Result<VmConfig, Error>)
        requires
            old(self).wf(),
        ensures
            final(self).wf(),
            r is Ok <==> (old(self).phase == VmmPhase::Created && HIMEM_START <= old(self).mem_size
                <= MMIO_GAP_START && num_vcpus >= 1),
            match r {
                Ok(c) => {
                    &&& final(self).phase == VmmPhase::Configured
                    &&& final(self).num_vcpus == num_vcpus
                    &&& final(self).net == old(self).net
                    &&& final(self).serial == old(self).serial
                    &&& c.vcpus@.len() == num_vcpus
                    &&& forall|i: int|
                        0 <= i < num_vcpus ==> {
                            &&& (#[trigger] c.vcpus@[i]).index == i
                            &&& c.vcpus@[i].regs.rip == kernel_load
                            &&& c.vcpus@[i].regs.rsi == ZERO_PAGE_START
                            &&& c.vcpus@[i].regs.rflags == 2
                            &&& long_mode_ready(c.vcpus@[i].sregs)
                            &&& c.vcpus@[i].sregs.cr3 == PML4_START
                            &&& c.vcpus@[i].sregs.cs.l == 1
                            &&& flat_segment(c.vcpus@[i].sregs.cs)
                            &&& flat_segment(c.vcpus@[i].sregs.ds)
                            &&& flat_segment(c.vcpus@[i].sregs.es)
                            &&& flat_segment(c.vcpus@[i].sregs.fs)
                            &&& flat_segment(c.vcpus@[i].sregs.gs)
                            &&& flat_segment(c.vcpus@[i].sregs.ss)
                        }
                    &&& checksum_ok(c.mptable.floating_pointer@)
                    &&& checksum_ok(c.mptable.config_table@)
                    &&& c.cmdline@ == "console=ttyS0 quiet panic=-1"@ + spec_joined(
                        old(self).cmdline_components@.map_values(|f: String| f@),
                    )
                    &&& c.page_tables@.len() == 514
                    &&& c.e820@.len() == 2
                    &&& c.e820@[1].addr == HIMEM_START
                    &&& c.e820@[1].size == old(self).mem_size - HIMEM_START
                    &&& e820_below_gap(c.e820@)
                },
                Err(e) => {
                    &&& (e == Error::AlreadyConfigured <==> old(self).phase != VmmPhase::Created)
                    &&& (e == Error::HimemStartPastMemEnd <==> (old(self).phase == VmmPhase::Created
                        && !(HIMEM_START <= old(self).mem_size <= MMIO_GAP_START)))
                    &&& (e == Error::AlreadyConfigured || e == Error::HimemStartPastMemEnd || e
                        == Error::Mptable)
                    &&& *final(self) == *old(self)
                },
            },
    {
        if !matches!(self.phase, VmmPhase::Created) {
            return Err(Error::AlreadyConfigured);
        }
        let e820 = match build_e820(self.mem_size) {
            Ok(entries) => entries,
            Err(e) => {
                return Err(e);
            },
        };
        let mptable = match setup_mptable(num_vcpus) {
            Ok(t) => t,
            Err(e) => {
                return Err(e);
            },
        };
        let cmdline = assemble_cmdline(default_cmdline(), &self.cmdline_components);
        let page_tables = build_page_tables();
        let mut vcpus: Vec<VcpuPlan> = Vec::new();
        let mut i: u8 = 0;
        while i < num_vcpus
            invariant
                i <= num_vcpus,
                vcpus@.len() == i,
                forall|j: int|
                    0 <= j < i ==> {
                        &&& (#[trigger] vcpus@[j]).index == j
                        &&& vcpus@[j].regs.rip == kernel_load
                        &&& vcpus@[j].regs.rsi == ZERO_PAGE_START
                        &&& vcpus@[j].regs.rflags == 2
                        &&& long_mode_ready(vcpus@[j].sregs)
                        &&& vcpus@[j].sregs.cr3 == PML4_START
                        &&& vcpus@[j].sregs.cs.l == 1
                        &&& flat_segment(vcpus@[j].sregs.cs)
                        &&& flat_segment(vcpus@[j].sregs.ds)
                        &&& flat_segment(vcpus@[j].sregs.es)
                        &&& flat_segment(vcpus@[j].sregs.fs)
                        &&& flat_segment(vcpus@[j].sregs.gs)
                        &&& flat_segment(vcpus@[j].sregs.ss)
                    },
            decreases num_vcpus - i,
        {
            let regs = configure_regs(kernel_load);
            let sregs = configure_sregs();
            vcpus.push(VcpuPlan { index: i, regs, sregs });
            i = i + 1;
        }
        self.phase = VmmPhase::Configured;
        self.num_vcpus = num_vcpus;
        Ok(VmConfig { cmdline, mptable, page_tables, e820, vcpus })
    }

    /// Enters the running phase. Succeeds exactly when the VMM is
    /// configured and was never run before: running before `configure`,
    /// after `stop`, or twice, fails cleanly with `NotConfigured` and
    /// changes nothing.
    pub fn run(&mut self) -> (r: Result<(), Error>)
        requires
            old(self).wf(),
        ensures
            final(self).wf(),
            r is Ok <==> old(self).phase == VmmPhase::Configured,
            match r {
                Ok(()) => {
                    &&& final(self).phase == VmmPhase::Running
                    &&& final(self).running
                    &&& final(self).serial == old(self).serial
                    &&& final(self).net == old(self).net
                },
                Err(e) => e == Error::NotConfigured && *final(self) == *old(self),
            },
    {
        if !matches!(self.phase, VmmPhase::Configured) {
            return Err(Error::NotConfigured);
        }
        self.phase = VmmPhase::Running;
        self.running = true;
        Ok(())
    }

    /// Ends the VM's life: clears the running flag and moves to the spent
    /// phase, whatever phase came before. The run loop and every vCPU
    /// thread observe the cleared flag and wind down.
    pub fn stop(&mut self)
        ensures
            *final(self) == spec_stopped(*old(self)),
            !final(self).running,
            final(self).phase == VmmPhase::Stopped,
    {
        self.running = false;
        self.phase = VmmPhase::Stopped;
    }
}

/// Law: stopping twice is a no-op: the second stop leaves the VMM exactly
/// where the first left it.
pub proof fn lemma_stop_twice_is_noop(v: VMM)
    ensures
        spec_stopped(spec_stopped(v)) == spec_stopped(v),
{
}

/// Law: after a stop the VMM is never in the configured phase again, so a
/// later `run` is rejected instead of restarting the guest.
pub proof fn lemma_stop_then_run_fails(v: VMM)
    ensures
        spec_stopped(v).phase != VmmPhase::Configured,
{
}

} // verus!
