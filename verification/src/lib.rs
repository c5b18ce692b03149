//! A micro-VMM library: it plans a guest's physical address space, boot
//! structures and vCPU state for a Linux guest, models the legacy serial
//! console and a virtio-net device, and drives the lifecycle of a small
//! hardware-virtualized sandbox VM.
//!
//! The library computes and checks; the surrounding binary performs the host
//! side (hypervisor ioctls, file loading, threads, TAP and terminal I/O) and
//! feeds the results back in as plain values.
use vstd::prelude::*;

pub mod build_plan;
pub mod cmdline;
pub mod init_script;
pub mod ip_pool;
pub mod irq_allocator;
pub mod memory;
pub mod mmio_allocator;
pub mod mptable;
pub mod net_device;
pub mod net_queue;
pub mod net_setup;
pub mod numfmt;
pub mod qemu;
pub mod runtimes;
pub mod serial;
pub mod stdin;
pub mod vcpu;
pub mod vmm;

verus! {

/// First address past the 32-bit hole: the MMIO gap ends here.
pub const MMIO_GAP_END: u64 = 0x1_0000_0000;

/// Size of the MMIO gap reserved for device windows.
pub const MMIO_GAP_SIZE: u64 = 0x3000_0000;

/// Start of the MMIO gap (memory area reserved for MMIO devices).
/// Guest RAM must stay below this address.
pub const MMIO_GAP_START: u64 = 0xD000_0000;

/// Errors of the VMM library.
///
/// Fatal setup errors are returned to the caller before the VM runs; the
/// variants follow the stage that failed.
#[derive(Clone, Copy, Debug, PartialEq, Eq, Structural)]
pub enum Error {
    /// Failed to write boot parameters to guest memory.
    BootConfigure,
    /// Error configuring the kernel command line.
    Cmdline,
    /// Failed to load the kernel image.
    KernelLoad,
    /// Invalid E820 configuration.
    E820Configuration,
    /// The high-memory start address does not fit the guest memory:
    /// the requested size is below the high-memory base or past the
    /// start of the MMIO gap (an oversized request is rejected, not capped).
    HimemStartPastMemEnd,
    /// I/O error.
    IO,
    /// Error issuing an ioctl to the hypervisor.
    KvmIoctl,
    /// vCPU configuration error.
    Vcpu,
    /// MP-table construction error.
    Mptable,
    /// Guest memory error.
    Memory,
    /// Serial device creation error.
    SerialCreation,
    /// IRQ registration error.
    IrqRegister,
    /// epoll / event-manager error.
    EpollError,
    /// Standard input read error.
    StdinRead,
    /// Standard input write error: the serial receive queue could not take
    /// the bytes.
    StdinWrite,
    /// Virtio-net device creation error.
    VirtioNetCreation,
    /// MMIO window exhausted.
    AddressAllocation,
    /// Virtio device error.
    Virtio,
    /// `configure` was called on an already configured VMM.
    AlreadyConfigured,
    /// `run` was called after `stop`, or before `configure`.
    NotConfigured,
}

/// Dedicated result type of the library.
pub type Result<T> = core::result::Result<T, Error>;

} // verus!
