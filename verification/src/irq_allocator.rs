//! Guest IRQ number allocator.
//!
//! Hands out guest IRQ lines one after the other, starting at a caller-chosen
//! base (the VMM starts it at 5: legacy IRQs 0-4 stay reserved, IRQ 4 belongs
//! to the serial console).
use vstd::prelude::*;

verus! {

pub struct IrqAllocator {
    next: u32,
}

/// The IRQ that an allocator started at `start` emits as its `k`-th value.
pub open spec fn irq_emitted(start: u32, k: nat) -> int {
    start + k
}

impl IrqAllocator {
    /// The next IRQ this allocator will hand out.
    pub closed spec fn next_irq(&self) -> u32 {
        self.next
    }

    pub fn new(start: u32) -> (r: Self)
        ensures
            r.next_irq() == start,
    {
        Self { next: start }
    }

    /// Hands out the next IRQ. The IRQ space overflowing is fatal, so the
    /// counter must not have reached its ceiling.
    pub fn allocate(&mut self) -> (irq: u32)
        requires
            old(self).next_irq() < u32::MAX,
        ensures
            irq == old(self).next_irq(),
            final(self).next_irq() == old(self).next_irq() + 1,
    {
        let irq = self.next;
        self.next = self.next + 1;
        irq
    }

    pub fn peek(&self) -> (irq: u32)
        ensures
            irq == self.next_irq(),
    {
        self.next
    }
}

/// Law: the emitted IRQ sequence is strictly increasing and starts at the
/// allocator's initial value.
pub proof fn lemma_irq_sequence_strictly_increasing(start: u32, k1: nat, k2: nat)
    requires
        k1 < k2,
    ensures
        irq_emitted(start, k1) < irq_emitted(start, k2),
        irq_emitted(start, 0) == start,
{
}

} // verus!
