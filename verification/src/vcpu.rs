//! vCPU state planning and VM-exit dispatch.
//!
//! Computes, as plain values, everything a vCPU is initialized with before
//! its first run: general registers for the Linux boot protocol, segment and
//! control registers for 64-bit long mode, the identity-mapped page tables,
//! the per-CPU CPUID edits and the local APIC line modes. The surrounding
//! binary converts these plans into hypervisor structures and issues the
//! ioctls. The exit dispatcher maps each VM exit to the action the run loop
//! must take.
use vstd::prelude::*;

use crate::memory::ZERO_PAGE_START;
use crate::serial::{SERIAL_PORT_BASE, SERIAL_PORT_LAST};

verus! {

/// Stack pointer handed to the kernel entry point.
pub const BOOT_STACK_POINTER: u64 = 0x8ff0;

/// Guest physical address of the page-map level 4 table.
pub const PML4_START: u64 = 0x9000;

/// Guest physical address of the page-directory-pointer table.
pub const PDPTE_START: u64 = 0xa000;

/// Guest physical address of the page-directory table.
pub const PDE_START: u64 = 0xb000;

/// Control register 0: protected mode enabled.
pub const X86_CR0_PE: u64 = 0x1;

/// Control register 0: paging enabled.
pub const X86_CR0_PG: u64 = 0x8000_0000;

/// Control register 4: physical address extension.
pub const X86_CR4_PAE: u64 = 0x20;

/// Extended feature register: long mode enable.
pub const EFER_LME: u64 = 0x100;

/// Extended feature register: long mode active.
pub const EFER_LMA: u64 = 0x400;

/// Sysenter code-segment register.
pub const MSR_IA32_SYSENTER_CS: u32 = 0x174;

/// Sysenter stack-pointer register.
pub const MSR_IA32_SYSENTER_ESP: u32 = 0x175;

/// Sysenter entry-point register.
pub const MSR_IA32_SYSENTER_EIP: u32 = 0x176;

/// Miscellaneous processor features register.
pub const MSR_IA32_MISC_ENABLE: u32 = 0x1a0;

/// Fast-string operations bit of the miscellaneous-enable register.
pub const MSR_IA32_MISC_ENABLE_FAST_STRING: u64 = 1;

/// Local APIC line mode: external interrupt.
pub const LAPIC_MODE_EXTINT: u32 = 0x700;

/// Local APIC line mode: non-maskable interrupt.
pub const LAPIC_MODE_NMI: u32 = 0x400;

/// Mask that clears a local APIC line's delivery-mode bits.
pub const LAPIC_MODE_MASK: u32 = 0x700;

/// One model-specific register and the value it boots with.
#[derive(Debug)]
pub struct MsrPlan {
    pub index: u32,
    pub data: u64,
}

/// The floating-point unit's initial state: default control word and
/// default MXCSR, everything else zero.
#[derive(Debug)]
pub struct FpuPlan {
    pub fcw: u16,
    pub mxcsr: u32,
}

/// General-purpose registers at the kernel entry.
#[derive(Debug)]
pub struct VcpuRegs {
    pub rflags: u64,
    pub rip: u64,
    pub rsp: u64,
    pub rbp: u64,
    pub rsi: u64,
}

/// One flat segment descriptor as loaded into a segment register.
#[derive(Debug)]
pub struct SegmentPlan {
    pub base: u64,
    pub limit: u32,
    pub selector: u16,
    pub kind: u8,
    pub present: u8,
    pub dpl: u8,
    pub db: u8,
    pub s: u8,
    pub l: u8,
    pub g: u8,
}

/// Segment and control registers for 64-bit long mode.
#[derive(Debug)]
pub struct VcpuSregs {
    pub cs: SegmentPlan,
    pub ds: SegmentPlan,
    pub es: SegmentPlan,
    pub fs: SegmentPlan,
    pub gs: SegmentPlan,
    pub ss: SegmentPlan,
    pub cr0: u64,
    pub cr3: u64,
    pub cr4: u64,
    pub efer: u64,
}

/// A flat segment: base zero, the full limit, present.
pub open spec fn flat_segment(s: SegmentPlan) -> bool {
    s.base == 0 && s.limit == 0xfffff && s.present == 1
}

/// The control bits of long-mode bring-up: protected mode and paging on,
/// physical address extension on, long mode enabled and active.
pub open spec fn long_mode_ready(s: VcpuSregs) -> bool {
    &&& s.cr0 & X86_CR0_PE == X86_CR0_PE
    &&& s.cr0 & X86_CR0_PG == X86_CR0_PG
    &&& s.cr4 & X86_CR4_PAE == X86_CR4_PAE
    &&& s.efer & EFER_LME == EFER_LME
    &&& s.efer & EFER_LMA == EFER_LMA
}

/// Plans the boot registers: execution starts at the kernel entry with the
/// zero page's address in `rsi`, the reserved flags bit set and the boot
/// stack in place.
pub fn configure_regs(kernel_load: u64) -> (r: VcpuRegs)
    ensures
        r.rip == kernel_load,
        r.rsi == ZERO_PAGE_START,
        r.rflags == 2,
        r.rsp == BOOT_STACK_POINTER,
        r.rbp == BOOT_STACK_POINTER,
{
    VcpuRegs {
        rflags: 2,
        rip: kernel_load,
        rsp: BOOT_STACK_POINTER,
        rbp: BOOT_STACK_POINTER,
        rsi: ZERO_PAGE_START,
    }
}

/// A flat code segment covering the whole address space, long-mode flagged.
fn code_segment() -> (r: SegmentPlan)
    ensures
        r.base == 0 && r.limit == 0xfffff && r.l == 1 && r.present == 1,
{
    SegmentPlan {
        base: 0,
        limit: 0xfffff,
        selector: 8,
        kind: 0xb,
        present: 1,
        dpl: 0,
        db: 0,
        s: 1,
        l: 1,
        g: 1,
    }
}

/// A flat data segment covering the whole address space.
fn data_segment() -> (r: SegmentPlan)
    ensures
        r.base == 0 && r.limit == 0xfffff && r.present == 1,
{
    SegmentPlan {
        base: 0,
        limit: 0xfffff,
        selector: 16,
        kind: 0x3,
        present: 1,
        dpl: 0,
        db: 1,
        s: 1,
        l: 0,
        g: 1,
    }
}

/// Plans the segment and control registers for 64-bit long mode: flat code
/// and data segments, page tables rooted at `PML4_START`, and the long-mode
/// control bits set.
pub fn configure_sregs() -> (r: VcpuSregs)
    ensures
        long_mode_ready(r),
        r.cr3 == PML4_START,
        r.cs.l == 1,
        flat_segment(r.cs),
        flat_segment(r.ds),
        flat_segment(r.es),
        flat_segment(r.fs),
        flat_segment(r.gs),
        flat_segment(r.ss),
        r.cr0 == X86_CR0_PE | X86_CR0_PG,
        r.cr4 == X86_CR4_PAE,
        r.efer == EFER_LME | EFER_LMA,
{
    let cs = code_segment();
    let ds = data_segment();
    let es = data_segment();
    let fs = data_segment();
    let gs = data_segment();
    let ss = data_segment();
    proof {
        assert((0x1u64 | 0x8000_0000u64) & 0x1u64 == 0x1u64) by (bit_vector);
        assert((0x1u64 | 0x8000_0000u64) & 0x8000_0000u64 == 0x8000_0000u64) by (bit_vector);
        assert(0x20u64 & 0x20u64 == 0x20u64) by (bit_vector);
        assert((0x100u64 | 0x400u64) & 0x100u64 == 0x100u64) by (bit_vector);
        assert((0x100u64 | 0x400u64) & 0x400u64 == 0x400u64) by (bit_vector);
    }
    VcpuSregs {
        cs,
        ds,
        es,
        fs,
        gs,
        ss,
        cr0: X86_CR0_PE | X86_CR0_PG,
        cr3: PML4_START,
        cr4: X86_CR4_PAE,
        efer: EFER_LME | EFER_LMA,
    }
}

/// Plans the boot-protocol model-specific registers: the sysenter
/// registers zeroed and fast-string operations enabled in the
/// miscellaneous-enable register.
pub fn configure_msrs() -> (r: Vec<MsrPlan>)
    ensures
        r@.len() == 4,
        r@[0].index == MSR_IA32_SYSENTER_CS && r@[0].data == 0,
        r@[1].index == MSR_IA32_SYSENTER_ESP && r@[1].data == 0,
        r@[2].index == MSR_IA32_SYSENTER_EIP && r@[2].data == 0,
        r@[3].index == MSR_IA32_MISC_ENABLE && r@[3].data == MSR_IA32_MISC_ENABLE_FAST_STRING,
{
    let mut r: Vec<MsrPlan> = Vec::new();
    r.push(MsrPlan { index: MSR_IA32_SYSENTER_CS, data: 0 });
    r.push(MsrPlan { index: MSR_IA32_SYSENTER_ESP, data: 0 });
    r.push(MsrPlan { index: MSR_IA32_SYSENTER_EIP, data: 0 });
    r.push(MsrPlan { index: MSR_IA32_MISC_ENABLE, data: MSR_IA32_MISC_ENABLE_FAST_STRING });
    r
}

/// Plans the zeroed floating-point state with the architectural defaults
/// for the control word and the MXCSR register.
pub fn configure_fpu() -> (r: FpuPlan)
    ensures
        r.fcw == 0x37f,
        r.mxcsr == 0x1f80,
{
    FpuPlan { fcw: 0x37f, mxcsr: 0x1f80 }
}

/// One 64-bit word to write into guest memory.
#[derive(Debug)]
pub struct TableWrite {
    pub addr: u64,
    pub value: u64,
}

/// Plans the identity-mapped page tables: one page-map level 4 entry, one
/// page-directory-pointer entry, and 512 two-MiB large pages covering the
/// first GiB of guest physical memory.
///
/// Every entry is present and writable (low bits 0x3); the directory
/// entries carry the large-page bit (0x80).
pub fn build_page_tables() -> (r: Vec<TableWrite>)
    ensures
        r@.len() == 514,
        r@[0].addr == PML4_START && r@[0].value == PDPTE_START + 3,
        r@[1].addr == PDPTE_START && r@[1].value == PDE_START + 3,
        forall|i: int|
            0 <= i < 512 ==> (#[trigger] r@[2 + i]).addr == PDE_START + i * 8 && r@[2 + i].value
                == i * 0x20_0000 + 0x83,
{
    let mut r: Vec<TableWrite> = Vec::new();
    r.push(TableWrite { addr: PML4_START, value: PDPTE_START + 3 });
    r.push(TableWrite { addr: PDPTE_START, value: PDE_START + 3 });
    let mut i: u64 = 0;
    while i < 512
        invariant
            i <= 512,
            r@.len() == 2 + i,
            r@[0].addr == PML4_START && r@[0].value == PDPTE_START + 3,
            r@[1].addr == PDPTE_START && r@[1].value == PDE_START + 3,
            forall|j: int|
                0 <= j < i ==> (#[trigger] r@[2 + j]).addr == PDE_START + j * 8 && r@[2 + j].value
                    == j * 0x20_0000 + 0x83,
        decreases 512 - i,
    {
        r.push(TableWrite { addr: PDE_START + i * 8, value: i * 0x20_0000 + 0x83 });
        i = i + 1;
    }
    r
}

/// One CPUID leaf as the hypervisor reports it.
#[derive(Debug)]
pub struct CpuidEntry {
    pub function: u32,
    pub index: u32,
    pub flags: u32,
    pub eax: u32,
    pub ebx: u32,
    pub ecx: u32,
    pub edx: u32,
}

/// CPUID feature-information leaf, `ecx`: the x2APIC bit.
pub const CPUID_ECX_X2APIC: u32 = 0x20_0000;

/// CPUID feature-information leaf, `ecx`: the TSC-deadline-timer bit.
pub const CPUID_ECX_TSC_DEADLINE: u32 = 0x100_0000;

/// CPUID feature-information leaf, `edx`: the multi-threading bit; set
/// when the logical-processor count in `ebx` is meaningful.
pub const CPUID_EDX_HTT: u32 = 0x1000_0000;

/// The per-vCPU edit of one CPUID leaf.
///
/// The feature-information leaf gets this CPU's APIC id in the top byte of
/// `ebx` and the VM's logical-processor count in bits 16 to 23, announces
/// multi-threading exactly when there is more than one vCPU, and drops the
/// x2APIC and TSC-deadline features, which this VMM does not virtualize.
/// The extended-topology leaf reports this CPU's id, one logical processor
/// at its thread level and the full count at its core level. Other leaves
/// pass through unchanged.
pub open spec fn spec_filter_entry(e: CpuidEntry, cpu_id: u32, num_vcpus: u8) -> CpuidEntry {
    if e.function == 1 {
        CpuidEntry {
            ebx: (e.ebx & 0xffff) | ((num_vcpus as u32) << 16) | (cpu_id & 0xff) << 24,
            ecx: e.ecx & !(CPUID_ECX_X2APIC | CPUID_ECX_TSC_DEADLINE),
            edx: if num_vcpus > 1 {
                e.edx | CPUID_EDX_HTT
            } else {
                e.edx & !CPUID_EDX_HTT
            },
            ..e
        }
    } else if e.function == 0xb {
        CpuidEntry {
            ebx: if e.index == 0 {
                (e.ebx & 0xffff_0000) | 1
            } else if e.index == 1 {
                (e.ebx & 0xffff_0000) | (num_vcpus as u32)
            } else {
                e.ebx
            },
            edx: cpu_id,
            ..e
        }
    } else {
        e
    }
}

/// Edits a supported-CPUID clone for the vCPU with index `cpu_id` of
/// `num_vcpus`, as `spec_filter_entry` describes, leaf by leaf.
pub fn filter_cpuid(cpu_id: u32, num_vcpus: u8, entries: &mut Vec<CpuidEntry>)
    ensures
        final(entries)@.len() == old(entries)@.len(),
        forall|i: int|
            0 <= i < old(entries)@.len() ==> final(entries)@[i] == spec_filter_entry(
                #[trigger] old(entries)@[i],
                cpu_id,
                num_vcpus,
            ),
{
    let n = entries.len();
    let mut i: usize = 0;
    while i < n
        invariant
            i <= n,
            n == old(entries)@.len(),
            entries@.len() == n,
            forall|j: int|
                0 <= j < i ==> entries@[j] == spec_filter_entry(
                    #[trigger] old(entries)@[j],
                    cpu_id,
                    num_vcpus,
                ),
            forall|j: int| i <= j < n ==> entries@[j] == old(entries)@[j],
        decreases n - i,
    {
        let function = entries[i].function;
        if function == 1 {
            let e = &entries[i];
            let ebx = (e.ebx & 0xffff) | ((num_vcpus as u32) << 16) | (cpu_id & 0xff) << 24;
            let ecx = e.ecx & !(CPUID_ECX_X2APIC | CPUID_ECX_TSC_DEADLINE);
            let edx = if num_vcpus > 1 {
                e.edx | CPUID_EDX_HTT
            } else {
                e.edx & !CPUID_EDX_HTT
            };
            let updated = CpuidEntry {
                function: e.function,
                index: e.index,
                flags: e.flags,
                eax: e.eax,
                ebx,
                ecx,
                edx,
            };
            entries.set(i, updated);
        } else if function == 0xb {
            let e = &entries[i];
            let ebx = if e.index == 0 {
                (e.ebx & 0xffff_0000) | 1
            } else if e.index == 1 {
                (e.ebx & 0xffff_0000) | (num_vcpus as u32)
            } else {
                e.ebx
            };
            let updated = CpuidEntry {
                function: e.function,
                index: e.index,
                flags: e.flags,
                eax: e.eax,
                ebx,
                ecx: e.ecx,
                edx: cpu_id,
            };
            entries.set(i, updated);
        }
        i = i + 1;
    }
}

/// Plans the local APIC lines: line 0 is switched to external-interrupt
/// mode, line 1 to non-maskable-interrupt mode; all other bits of either
/// line survive.
pub fn configure_lapic_lines(lint0: u32, lint1: u32) -> (r: (u32, u32))
    ensures
        r.0 == (lint0 & !LAPIC_MODE_MASK) | LAPIC_MODE_EXTINT,
        r.1 == (lint1 & !LAPIC_MODE_MASK) | LAPIC_MODE_NMI,
{
    ((lint0 & !LAPIC_MODE_MASK) | LAPIC_MODE_EXTINT, (lint1 & !LAPIC_MODE_MASK) | LAPIC_MODE_NMI)
}

/// A VM exit as the hypervisor reports it to a vCPU thread, reduced to
/// plain values.
#[derive(Clone, Copy, Debug, PartialEq, Eq, Structural)]
pub enum VcpuExit {
    /// The guest executed a halt.
    Hlt,
    /// Port input: the guest reads `port`.
    IoIn { port: u16 },
    /// Port output: the guest wrote `port`.
    IoOut { port: u16 },
    /// MMIO read at `addr`.
    MmioRead { addr: u64 },
    /// MMIO write at `addr`.
    MmioWrite { addr: u64 },
    /// The guest shut down.
    Shutdown,
    /// The guest triple-faulted.
    TripleFault,
    /// The run ioctl was interrupted by a signal.
    Interrupted,
    /// Any other exit reason.
    Unknown,
}

/// What a vCPU thread must do with one VM exit.
#[derive(Clone, Copy, Debug, PartialEq, Eq, Structural)]
pub enum ExitAction {
    /// Read the serial register at this offset and complete the port input.
    SerialRead { offset: u16 },
    /// Write the serial register at this offset from the port output.
    SerialWrite { offset: u16 },
    /// Read the virtio-net MMIO register at this offset.
    NetRead { mmio_offset: u64 },
    /// Write the virtio-net MMIO register at this offset.
    NetWrite { mmio_offset: u64 },
    /// Idle briefly, then re-enter the run loop.
    Idle,
    /// Clear the running flag and leave the run loop.
    Stop,
    /// Return to the run loop; the outer loop re-checks the running flag.
    Yield,
    /// Not addressed to a device this VMM emulates: log and carry on.
    Ignore,
}

/// A port lies in the serial device's range.
pub open spec fn serial_port(port: u16) -> bool {
    SERIAL_PORT_BASE <= port <= SERIAL_PORT_LAST
}

/// An address lies in the net device's MMIO window `[start, start + len)`.
pub open spec fn in_mmio_range(addr: u64, range: (u64, u64)) -> bool {
    range.0 <= addr < range.0 + range.1
}

/// Decides what the run loop does with one VM exit.
///
/// Halt idles; port I/O in the serial range is routed to the serial device
/// by register offset; MMIO in the net device's window (when one exists,
/// `net_range` as start and length) is routed to it by offset; shutdown,
/// triple fault and unknown exits stop the VM; an interrupted run returns
/// to the loop, which re-checks the running flag; anything else addressed
/// to no emulated device is ignored.
pub fn dispatch_exit(exit: VcpuExit, net_range: Option<(u64, u64)>) -> (r: ExitAction)
    ensures
        r == match exit {
            VcpuExit::Hlt => ExitAction::Idle,
            VcpuExit::IoIn { port } => if serial_port(port) {
                ExitAction::SerialRead { offset: (port - SERIAL_PORT_BASE) as u16 }
            } else {
                ExitAction::Ignore
            },
            VcpuExit::IoOut { port } => if serial_port(port) {
                ExitAction::SerialWrite { offset: (port - SERIAL_PORT_BASE) as u16 }
            } else {
                ExitAction::Ignore
            },
            VcpuExit::MmioRead { addr } => match net_range {
                Some(range) => if in_mmio_range(addr, range) {
                    ExitAction::NetRead { mmio_offset: (addr - range.0) as u64 }
                } else {
                    ExitAction::Ignore
                },
                None => ExitAction::Ignore,
            },
            VcpuExit::MmioWrite { addr } => match net_range {
                Some(range) => if in_mmio_range(addr, range) {
                    ExitAction::NetWrite { mmio_offset: (addr - range.0) as u64 }
                } else {
                    ExitAction::Ignore
                },
                None => ExitAction::Ignore,
            },
            VcpuExit::Shutdown => ExitAction::Stop,
            VcpuExit::TripleFault => ExitAction::Stop,
            VcpuExit::Interrupted => ExitAction::Yield,
            VcpuExit::Unknown => ExitAction::Stop,
        },
{
    match exit {
        VcpuExit::Hlt => ExitAction::Idle,
        VcpuExit::IoIn { port } => {
            if SERIAL_PORT_BASE <= port && port <= SERIAL_PORT_LAST {
                ExitAction::SerialRead { offset: port - SERIAL_PORT_BASE }
            } else {
                ExitAction::Ignore
            }
        },
        VcpuExit::IoOut { port } => {
            if SERIAL_PORT_BASE <= port && port <= SERIAL_PORT_LAST {
                ExitAction::SerialWrite { offset: port - SERIAL_PORT_BASE }
            } else {
                ExitAction::Ignore
            }
        },
        VcpuExit::MmioRead { addr } => {
            match net_range {
                Some(range) => {
                    if range.0 <= addr && addr - range.0 < range.1 {
                        ExitAction::NetRead { mmio_offset: addr - range.0 }
                    } else {
                        ExitAction::Ignore
                    }
                },
                None => ExitAction::Ignore,
            }
        },
        VcpuExit::MmioWrite { addr } => {
            match net_range {
                Some(range) => {
                    if range.0 <= addr && addr - range.0 < range.1 {
                        ExitAction::NetWrite { mmio_offset: addr - range.0 }
                    } else {
                        ExitAction::Ignore
                    }
                },
                None => ExitAction::Ignore,
            }
        },
        VcpuExit::Shutdown => ExitAction::Stop,
        VcpuExit::TripleFault => ExitAction::Stop,
        VcpuExit::Interrupted => ExitAction::Yield,
        VcpuExit::Unknown => ExitAction::Stop,
    }
}

} // verus!
