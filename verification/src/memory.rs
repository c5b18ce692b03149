//! Guest physical memory planning.
//!
//! Computes the memslot registrations for the hypervisor, the E820 map and
//! the boot-parameter fields for the Linux boot protocol. The surrounding
//! binary maps the host memory, registers the planned slots with the
//! hypervisor and writes the planned structures into guest memory.
use vstd::prelude::*;

use crate::{Error, MMIO_GAP_START};

verus! {

/// First address of the high-memory region the kernel is loaded into.
pub const HIMEM_START: u64 = 0x10_0000;

/// Guest physical address of the boot-parameter "zero page".
pub const ZERO_PAGE_START: u64 = 0x7000;

/// Guest physical address of the kernel command line.
pub const CMDLINE_START: u64 = 0x2_0000;

/// First address of the extended BIOS data area; conventional RAM ends here.
pub const EBDA_START: u64 = 0x9fc00;

/// E820 region type: usable RAM.
pub const E820_RAM: u32 = 1;

/// Most E820 entries a zero page can carry.
pub const E820_MAX_ENTRIES: usize = 128;

/// Page size used for guest physical placement.
pub const PAGE_SIZE: u64 = 0x1000;

/// One hypervisor memory-slot registration: a guest physical range backed
/// by host virtual memory.
#[derive(Debug)]
pub struct MemSlot {
    pub slot: u32,
    pub guest_phys_addr: u64,
    pub size: u64,
    pub host_virt_addr: u64,
    pub flags: u32,
}

/// One region of the E820 memory map handed to the kernel.
#[derive(Debug)]
pub struct E820Entry {
    pub addr: u64,
    pub size: u64,
    pub kind: u32,
}

/// Every slot's host range ends inside the host mapping, guest ranges are
/// pairwise disjoint, and slot ids are unique.
pub open spec fn slots_wf(slots: Seq<MemSlot>, host_map_end: int) -> bool {
    &&& forall|i: int|
        0 <= i < slots.len() ==> (#[trigger] slots[i]).host_virt_addr + slots[i].size
            <= host_map_end
    &&& forall|i: int, j: int|
        0 <= i < slots.len() && 0 <= j < slots.len() && i != j ==> ((#[trigger] slots[i]).guest_phys_addr
            + slots[i].size <= (#[trigger] slots[j]).guest_phys_addr || slots[j].guest_phys_addr
            + slots[j].size <= slots[i].guest_phys_addr)
    &&& forall|i: int, j: int|
        0 <= i < slots.len() && 0 <= j < slots.len() && i != j ==> (#[trigger] slots[i]).slot != (
        #[trigger] slots[j]).slot
}

/// Plans the memslot registrations for one contiguous guest RAM region at
/// guest physical address zero, backed by the host mapping that starts at
/// `host_base` and holds `host_map_len` bytes.
///
/// The plan holds a single slot covering `[0, mem_size)`; every planned
/// slot's host range ends at or before `host_base + host_map_len`, guest
/// ranges are pairwise disjoint and slot ids unique. The plan fails with
/// `Memory` exactly when the requested size is zero, exceeds the host
/// mapping, or the host range would overflow the address space.
pub fn plan_memslots(mem_size: u64, host_base: u64, host_map_len: u64) -> (r: Result<
    Vec<MemSlot>,
    Error,
>)
    ensures
        r is Ok <==> (1 <= mem_size <= host_map_len && host_base + host_map_len <= u64::MAX),
        r matches Ok(slots) ==> {
            &&& slots@.len() == 1
            &&& slots@[0].slot == 0
            &&& slots@[0].guest_phys_addr == 0
            &&& slots@[0].size == mem_size
            &&& slots@[0].host_virt_addr == host_base
            &&& slots@[0].flags == 0
            &&& slots_wf(slots@, host_base + host_map_len)
        },
        r matches Err(e) ==> e == Error::Memory,
{
    if mem_size == 0 || mem_size > host_map_len || host_map_len > u64::MAX - host_base {
        return Err(Error::Memory);
    }
    let mut slots: Vec<MemSlot> = Vec::new();
    slots.push(
        MemSlot {
            slot: 0,
            guest_phys_addr: 0,
            size: mem_size,
            host_virt_addr: host_base,
            flags: 0,
        },
    );
    Ok(slots)
}

/// All usable RAM the map describes stays below the MMIO gap.
pub open spec fn e820_below_gap(entries: Seq<E820Entry>) -> bool {
    forall|i: int|
        0 <= i < entries.len() ==> (#[trigger] entries[i]).addr + entries[i].size <= MMIO_GAP_START
}

/// Builds the E820 map for a guest with `mem_size` bytes of RAM:
/// conventional memory up to the extended BIOS data area, and high memory
/// from one MiB to the end of RAM.
///
/// A request below the high-memory base, or past the start of the MMIO gap,
/// is rejected with `HimemStartPastMemEnd` (an oversized request is not
/// silently capped), so the map never reaches into the gap.
pub fn build_e820(mem_size: u64) -> (r: Result<Vec<E820Entry>, Error>)
    ensures
        r is Ok <==> HIMEM_START <= mem_size <= MMIO_GAP_START,
        r matches Ok(entries) ==> {
            &&& entries@.len() == 2
            &&& entries@[0].addr == 0
            &&& entries@[0].size == EBDA_START
            &&& entries@[0].kind == E820_RAM
            &&& entries@[1].addr == HIMEM_START
            &&& entries@[1].size == mem_size - HIMEM_START
            &&& entries@[1].kind == E820_RAM
            &&& e820_below_gap(entries@)
        },
        r matches Err(e) ==> e == Error::HimemStartPastMemEnd,
{
    if mem_size < HIMEM_START || mem_size > MMIO_GAP_START {
        return Err(Error::HimemStartPastMemEnd);
    }
    let mut entries: Vec<E820Entry> = Vec::new();
    entries.push(E820Entry { addr: 0, size: EBDA_START, kind: E820_RAM });
    entries.push(E820Entry { addr: HIMEM_START, size: mem_size - HIMEM_START, kind: E820_RAM });
    Ok(entries)
}

/// The largest page-aligned address at or below `x`.
pub open spec fn page_align_down(x: int) -> int {
    (x / (PAGE_SIZE as int)) * (PAGE_SIZE as int)
}

/// Aligning down moves at most a page backwards and keeps alignment.
proof fn lemma_page_align_down(x: int)
    requires
        x >= 0,
    ensures
        page_align_down(x) <= x,
        page_align_down(x) > x - PAGE_SIZE,
        page_align_down(x) % (PAGE_SIZE as int) == 0,
{
    vstd::arithmetic::div_mod::lemma_fundamental_div_mod(x, PAGE_SIZE as int);
    vstd::arithmetic::div_mod::lemma_mod_bound(x, PAGE_SIZE as int);
    vstd::arithmetic::div_mod::lemma_mod_multiples_basic(x / (PAGE_SIZE as int), PAGE_SIZE as int);
}

/// Picks the guest physical load address of the initramfs: the highest
/// page-aligned address that still fits the image inside RAM, above the
/// high-memory base. An image that cannot fit is rejected with
/// `KernelLoad`.
pub fn initramfs_load_addr(mem_size: u64, initramfs_size: u64) -> (r: Result<u64, Error>)
    ensures
        r is Ok <==> (1 <= initramfs_size <= mem_size && page_align_down(
            mem_size - initramfs_size,
        ) >= HIMEM_START),
        r matches Ok(addr) ==> {
            &&& addr == page_align_down(mem_size - initramfs_size)
            &&& addr as int % (PAGE_SIZE as int) == 0
            &&& addr + initramfs_size <= mem_size
            &&& addr >= HIMEM_START
        },
        r matches Err(e) ==> e == Error::KernelLoad,
{
    if initramfs_size == 0 || initramfs_size > mem_size {
        return Err(Error::KernelLoad);
    }
    proof {
        lemma_page_align_down((mem_size - initramfs_size) as int);
    }
    let addr = (mem_size - initramfs_size) / PAGE_SIZE * PAGE_SIZE;
    if addr < HIMEM_START {
        return Err(Error::KernelLoad);
    }
    Ok(addr)
}

/// The boot-parameter fields the zero page carries, as plain values.
#[derive(Debug)]
pub struct BootParamsPlan {
    /// Where the command line lives and how many bytes it has, including
    /// the terminating zero.
    pub cmdline_addr: u64,
    pub cmdline_size: u64,
    /// Where the initramfs was placed and its size; both zero without one.
    pub initramfs_addr: u64,
    pub initramfs_size: u64,
    /// The E820 map.
    pub e820: Vec<E820Entry>,
}

/// Assembles the zero-page fields from the planned pieces. A map with more
/// entries than the zero page can carry is rejected with
/// `E820Configuration`.
pub fn build_boot_params(
    e820: Vec<E820Entry>,
    cmdline_size: u64,
    initramfs: Option<(u64, u64)>,
) -> (r: Result<BootParamsPlan, Error>)
    ensures
        r is Ok <==> e820@.len() <= E820_MAX_ENTRIES,
        r matches Ok(p) ==> {
            &&& p.cmdline_addr == CMDLINE_START
            &&& p.cmdline_size == cmdline_size
            &&& p.e820@ == e820@
            &&& match initramfs {
                Some(ri) => p.initramfs_addr == ri.0 && p.initramfs_size == ri.1,
                None => p.initramfs_addr == 0 && p.initramfs_size == 0,
            }
        },
        r matches Err(e) ==> e == Error::E820Configuration,
{
    if e820.len() > E820_MAX_ENTRIES {
        return Err(Error::E820Configuration);
    }
    let (initramfs_addr, initramfs_size) = match initramfs {
        Some(ri) => ri,
        None => (0, 0),
    };
    Ok(
        BootParamsPlan {
            cmdline_addr: CMDLINE_START,
            cmdline_size,
            initramfs_addr,
            initramfs_size,
            e820,
        },
    )
}

} // verus!
