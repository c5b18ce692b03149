//! MMIO window allocator.
//!
//! Carves page-sized, aligned sub-ranges for device windows out of the
//! reserved MMIO gap. The carving itself is done by `vm_allocator`'s
//! `AddressAllocator`; this module states what that allocator guarantees and
//! proves, on top of it, that the ranges handed to devices never overlap and
//! never leave the window, and that an allocation is refused only when no
//! aligned run of the requested size is free.
use vstd::prelude::*;

use crate::Error;

verus! {

#[verifier::external_type_specification]
#[verifier::external_body]
pub struct ExAddressAllocator(vm_allocator::AddressAllocator);

/// The set of ranges currently allocated from `a`; a pair holds the first
/// and the last address of a range, both inclusive.
pub uninterp spec fn allocated_ranges(a: vm_allocator::AddressAllocator) -> Set<(u64, u64)>;

/// The address window that `a` was created to manage: its first and its last
/// address, both inclusive.
pub uninterp spec fn managed_window(a: vm_allocator::AddressAllocator) -> (u64, u64);

/// Every maximal free run of `a`'s window is held as one piece: true of a
/// fresh allocator and preserved by allocation, which only ever splits a
/// free piece around the carved range. (Releasing a range could break it,
/// by leaving two free pieces side by side; nothing here releases.)
pub uninterp spec fn unfragmented(a: vm_allocator::AddressAllocator) -> bool;

/// `x` is a power of two.
pub open spec fn is_power_of_two(x: u64) -> bool {
    exists|k: int| 0 <= k < 64 && x == #[trigger] (1u64 << (k as u64))
}

/// Two inclusive ranges do not share an address.
pub open spec fn ranges_disjoint(a: (u64, u64), b: (u64, u64)) -> bool {
    a.1 < b.0 || b.1 < a.0
}

/// An inclusive range lies inside an inclusive window.
pub open spec fn range_in_window(r: (u64, u64), w: (u64, u64)) -> bool {
    w.0 <= r.0 && r.0 <= r.1 && r.1 <= w.1
}

/// An aligned run of `size` addresses starting at `s` lies inside the
/// window and touches none of the given ranges.
pub open spec fn aligned_free_run_at(
    ranges: Set<(u64, u64)>,
    window: (u64, u64),
    size: u64,
    align: u64,
    s: u64,
) -> bool {
    &&& s as int % align as int == 0
    &&& window.0 <= s
    &&& s + size - 1 <= window.1
    &&& forall|p: (u64, u64)|
        #[trigger] ranges.contains(p) ==> ranges_disjoint(p, (s, (s + size - 1) as u64))
}

/// Some aligned run of `size` addresses is still free.
pub open spec fn free_run_exists(
    ranges: Set<(u64, u64)>,
    window: (u64, u64),
    size: u64,
    align: u64,
) -> bool {
    exists|s: u64| aligned_free_run_at(ranges, window, size, align, s)
}

/// Relies on `vm_allocator::AddressAllocator::new`: it manages
/// `[base, base + size - 1]` and starts with nothing allocated, the whole
/// window one free piece; it fails exactly when the window is empty or
/// does not fit in the address space.
#[verifier::external_body]
fn allocator_new(base: u64, size: u64) -> (r: Option<vm_allocator::AddressAllocator>)
    ensures
        r is Some <==> (1 <= size && base + size - 1 <= u64::MAX),
        r matches Some(a) ==> managed_window(a) == (base, (base + size - 1) as u64)
            && allocated_ranges(a) == Set::<(u64, u64)>::empty() && unfragmented(a),
{
    vm_allocator::AddressAllocator::new(base, size).ok()
}

/// Relies on `vm_allocator::AddressAllocator::allocate` with the first-match
/// policy: a returned range has the requested length, starts on the requested
/// alignment, lies inside the managed window, and does not overlap any range
/// allocated before; on failure nothing changes. While the free space is
/// unfragmented, the call succeeds whenever a positive number of addresses is
/// asked for at a power-of-two alignment and some aligned free run of that
/// size is left: the first-match search visits every free piece and takes one
/// that fits. (The success promise is limited to windows under a GiB that end
/// below the top of the address space: the crate caps its search tree at
/// height 50, which such windows, holding at most about a billion ranges, can
/// never reach; and it computes a result's one-past-the-end address before
/// stepping back, which overflows for a range ending exactly at the last
/// address.)
#[verifier::external_body]
fn allocator_allocate(a: &mut vm_allocator::AddressAllocator, size: u64, align: u64) -> (r: Option<
    (u64, u64),
>)
    ensures
        managed_window(*final(a)) == managed_window(*old(a)),
        unfragmented(*old(a)) ==> unfragmented(*final(a)),
        (unfragmented(*old(a)) && 1 <= size && is_power_of_two(align) && managed_window(
            *old(a),
        ).1 - managed_window(*old(a)).0 < 0x4000_0000 && managed_window(*old(a)).1 < u64::MAX
            && free_run_exists(
            allocated_ranges(*old(a)),
            managed_window(*old(a)),
            size,
            align,
        )) ==> r is Some,
        match r {
            Some(range) => {
                &&& range.0 <= range.1
                &&& range.1 - range.0 + 1 == size
                &&& range.0 as int % align as int == 0
                &&& managed_window(*old(a)).0 <= range.0
                &&& range.1 <= managed_window(*old(a)).1
                &&& forall|p: (u64, u64)|
                    allocated_ranges(*old(a)).contains(p) ==> p.1 < range.0 || range.1 < p.0
                &&& allocated_ranges(*final(a)) == allocated_ranges(*old(a)).insert(range)
            },
            None => allocated_ranges(*final(a)) == allocated_ranges(*old(a)),
        },
{
    a.allocate(size, align, vm_allocator::AllocPolicy::FirstMatch).ok().map(|r| (
        r.start(),
        r.end(),
    ))
}

/// Allocator for device MMIO windows inside the reserved gap.
#[derive(Debug)]
pub struct MmioAddressAllocator {
    inner: vm_allocator::AddressAllocator,
}

impl MmioAddressAllocator {
    /// The ranges handed out so far.
    pub closed spec fn ranges(&self) -> Set<(u64, u64)> {
        allocated_ranges(self.inner)
    }

    /// The window this allocator carves from.
    pub closed spec fn window(&self) -> (u64, u64) {
        managed_window(self.inner)
    }

    /// The free space was never fragmented; this allocator only carves.
    pub closed spec fn carve_only(&self) -> bool {
        unfragmented(self.inner)
    }

    /// Every range handed out stays inside the window, no two of them
    /// overlap, and the free space is whole pieces.
    pub open spec fn wf(&self) -> bool {
        &&& forall|r: (u64, u64)|
            #[trigger] self.ranges().contains(r) ==> range_in_window(r, self.window())
        &&& forall|r1: (u64, u64), r2: (u64, u64)|
            self.ranges().contains(r1) && self.ranges().contains(r2) && r1 != r2
                ==> ranges_disjoint(r1, r2)
        &&& self.carve_only()
    }

    /// Creates an allocator over `[base, base + size - 1]`, empty at first.
    pub fn new(base: u64, size: u64) -> (r: Result<Self, Error>)
        ensures
            r is Ok <==> (1 <= size && base + size - 1 <= u64::MAX),
            r matches Ok(a) ==> a.wf() && a.window() == (base, (base + size - 1) as u64)
                && a.ranges() == Set::<(u64, u64)>::empty(),
            r matches Err(e) ==> e == Error::AddressAllocation,
    {
        match allocator_new(base, size) {
            Some(inner) => Ok(MmioAddressAllocator { inner }),
            None => Err(Error::AddressAllocation),
        }
    }

    /// Carves the next free sub-range of `size` addresses, aligned to `align`.
    /// A successful result is aligned, has exactly the requested length, lies
    /// in the window and overlaps none of the ranges handed out before; the
    /// window being exhausted is reported as `AddressAllocation`. For a
    /// window under a GiB that ends below the top of the address space, the
    /// call succeeds whenever the request is sound (a positive size at a
    /// power-of-two alignment) and some aligned free run of that size is
    /// left, so exhaustion is the only way to fail such a request.
    pub fn allocate(&mut self, size: u64, align: u64) -> (r: Result<(u64, u64), Error>)
        requires
            old(self).wf(),
        ensures
            final(self).wf(),
            final(self).window() == old(self).window(),
            (1 <= size && is_power_of_two(align) && old(self).window().1 - old(self).window().0
                < 0x4000_0000 && old(self).window().1 < u64::MAX && free_run_exists(
                old(self).ranges(),
                old(self).window(),
                size,
                align,
            )) ==> r is Ok,
            match r {
                Ok(range) => {
                    &&& range.0 <= range.1
                    &&& range.1 - range.0 + 1 == size
                    &&& range.0 as int % align as int == 0
                    &&& range_in_window(range, old(self).window())
                    &&& forall|p: (u64, u64)|
                        #[trigger] old(self).ranges().contains(p) ==> ranges_disjoint(p, range)
                    &&& final(self).ranges() == old(self).ranges().insert(range)
                },
                Err(e) => e == Error::AddressAllocation && final(self).ranges() == old(
                    self,
                ).ranges(),
            },
    {
        match allocator_allocate(&mut self.inner, size, align) {
            Some(range) => {
                proof {
                    assert forall|r: (u64, u64)| #[trigger] self.ranges().contains(r)
                        implies range_in_window(r, self.window()) by {
                        if r == range {
                            assert(range_in_window(range, old(self).window()));
                        } else {
                            assert(old(self).ranges().contains(r));
                        }
                    }
                    assert forall|r1: (u64, u64), r2: (u64, u64)|
                        self.ranges().contains(r1) && self.ranges().contains(r2) && r1 != r2
                            implies ranges_disjoint(r1, r2) by {
                        if r1 == range {
                            assert(old(self).ranges().contains(r2));
                        } else if r2 == range {
                            assert(old(self).ranges().contains(r1));
                        } else {
                            assert(old(self).ranges().contains(r1));
                            assert(old(self).ranges().contains(r2));
                        }
                    }
                }
                Ok(range)
            },
            None => {
                proof {
                    assert(self.ranges() =~= old(self).ranges());
                }
                Err(Error::AddressAllocation)
            },
        }
    }
}

/// Law: whatever was allocated, the ranges handed out are pairwise disjoint
/// and each lies inside the allocator's window.
pub proof fn lemma_mmio_ranges_never_overlap(
    a: &MmioAddressAllocator,
    r1: (u64, u64),
    r2: (u64, u64),
)
    requires
        a.wf(),
        a.ranges().contains(r1),
        a.ranges().contains(r2),
        r1 != r2,
    ensures
        ranges_disjoint(r1, r2),
        range_in_window(r1, a.window()),
        range_in_window(r2, a.window()),
{
}

} // verus!
