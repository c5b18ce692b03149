//! Intel MP-table construction.
//!
//! Builds the MP floating pointer structure and the MP configuration table
//! that describe the vCPUs and the I/O APIC to the guest kernel. Both
//! structures carry a checksum byte chosen so that their bytes sum to zero
//! modulo 256; this module proves that property of every table it builds.
//! The surrounding binary copies the two byte strings into guest memory at
//! the addresses this module fixes.
use vstd::prelude::*;

use crate::Error;

verus! {

/// Guest physical address of the floating pointer structure, inside the
/// BIOS ROM region.
pub const MPTABLE_START: u64 = 0xf0000;

/// Size of the floating pointer structure.
pub const MPF_INTEL_LEN: usize = 16;

/// Size of the configuration table header.
pub const MPC_TABLE_HEADER_LEN: usize = 44;

/// Size of one processor entry.
pub const MPC_CPU_LEN: usize = 20;

/// Size of the I/O APIC entry.
pub const MPC_IOAPIC_LEN: usize = 8;

/// Local APIC base address reported to the guest.
pub const APIC_DEFAULT_PHYS_BASE: u32 = 0xfee0_0000;

/// I/O APIC base address reported to the guest.
pub const IO_APIC_DEFAULT_PHYS_BASE: u32 = 0xfec0_0000;

/// Sum of a byte string as an unbounded integer.
pub open spec fn byte_sum(s: Seq<u8>) -> int
    decreases s.len(),
{
    if s.len() == 0 {
        0
    } else {
        byte_sum(s.drop_last()) + s.last()
    }
}

/// A byte string whose checksum byte has been fixed up: all bytes together
/// sum to zero modulo 256.
pub open spec fn checksum_ok(s: Seq<u8>) -> bool {
    byte_sum(s) % 256 == 0
}

/// The two MP structures, ready to be copied into guest memory.
#[derive(Debug)]
pub struct MpTable {
    /// The 16-byte floating pointer structure, to be placed at
    /// `MPTABLE_START`.
    pub floating_pointer: Vec<u8>,
    /// The configuration table, to be placed right behind the floating
    /// pointer.
    pub config_table: Vec<u8>,
}

/// Guest physical address of the configuration table.
pub open spec fn spec_config_addr() -> int {
    MPTABLE_START + MPF_INTEL_LEN
}

/// Where the configuration table lands in guest memory.
pub fn mptable_config_addr() -> (r: u64)
    ensures
        r == spec_config_addr(),
{
    MPTABLE_START + MPF_INTEL_LEN as u64
}

/// Replacing a byte changes the sum by the difference of the bytes.
proof fn lemma_byte_sum_update(s: Seq<u8>, i: int, v: u8)
    requires
        0 <= i < s.len(),
    ensures
        byte_sum(s.update(i, v)) == byte_sum(s) - s[i] + v,
    decreases s.len(),
{
    if i == s.len() - 1 {
        assert(s.update(i, v).drop_last() =~= s.drop_last());
    } else {
        assert(s.update(i, v).drop_last() =~= s.drop_last().update(i, v));
        lemma_byte_sum_update(s.drop_last(), i, v);
    }
}

/// Sums the bytes of `v`.
fn sum_bytes(v: &Vec<u8>) -> (sum: u64)
    requires
        v@.len() <= 0x10000,
    ensures
        sum == byte_sum(v@),
        sum <= 255 * v@.len(),
{
    let mut sum: u64 = 0;
    let mut i: usize = 0;
    while i < v.len()
        invariant
            i <= v@.len(),
            v@.len() <= 0x10000,
            sum == byte_sum(v@.take(i as int)),
            sum <= 255 * i,
        decreases v@.len() - i,
    {
        proof {
            assert(v@.take(i + 1).drop_last() =~= v@.take(i as int));
            assert(v@.take(i + 1).last() == v@[i as int]);
        }
        sum = sum + v[i] as u64;
        i = i + 1;
    }
    proof {
        assert(v@.take(v@.len() as int) =~= v@);
    }
    sum
}

/// Writes the checksum byte at `pos` (which must still be zero) so that the
/// whole string sums to zero modulo 256.
fn fix_checksum(v: &mut Vec<u8>, pos: usize)
    requires
        pos < old(v)@.len(),
        old(v)@.len() <= 0x10000,
        old(v)@[pos as int] == 0,
    ensures
        final(v)@.len() == old(v)@.len(),
        checksum_ok(final(v)@),
        forall|j: int| 0 <= j < old(v)@.len() && j != pos ==> final(v)@[j] == old(v)@[j],
{
    let sum = sum_bytes(v);
    let rem = sum % 256;
    let fix: u64 = (256 - rem) % 256;
    let c = fix as u8;
    v.set(pos, c);
    proof {
        lemma_byte_sum_update(old(v)@, pos as int, c);
        let s0 = byte_sum(old(v)@);
        assert(byte_sum(v@) == s0 + c);
        assert(s0 % 256 + c == 0 || s0 % 256 + c == 256) by {
            assert(c == (256 - s0 % 256) % 256);
        }
        assert((s0 + c) % 256 == 0) by {
            vstd::arithmetic::div_mod::lemma_add_mod_noop(s0, c as int, 256);
        }
    }
}

/// Appends a 32-bit value in little-endian order.
fn push_u32_le(v: &mut Vec<u8>, x: u32)
    ensures
        final(v)@.len() == old(v)@.len() + 4,
        final(v)@ == old(v)@ + seq![
            (x & 0xff) as u8,
            ((x >> 8) & 0xff) as u8,
            ((x >> 16) & 0xff) as u8,
            ((x >> 24) & 0xff) as u8,
        ],
{
    v.push((x & 0xff) as u8);
    v.push(((x >> 8) & 0xff) as u8);
    v.push(((x >> 16) & 0xff) as u8);
    v.push(((x >> 24) & 0xff) as u8);
    proof {
        assert(final(v)@ =~= old(v)@ + seq![
            (x & 0xff) as u8,
            ((x >> 8) & 0xff) as u8,
            ((x >> 16) & 0xff) as u8,
            ((x >> 24) & 0xff) as u8,
        ]);
    }
}

/// Appends `n` zero bytes.
fn push_zeros(v: &mut Vec<u8>, n: usize)
    requires
        old(v)@.len() + n <= usize::MAX,
    ensures
        final(v)@.len() == old(v)@.len() + n,
        forall|j: int| 0 <= j < old(v)@.len() ==> final(v)@[j] == old(v)@[j],
        forall|j: int| old(v)@.len() <= j < final(v)@.len() ==> final(v)@[j] == 0,
    decreases n,
{
    let mut i: usize = 0;
    while i < n
        invariant
            i <= n,
            old(v)@.len() + n <= usize::MAX,
            v@.len() == old(v)@.len() + i,
            forall|j: int| 0 <= j < old(v)@.len() ==> v@[j] == old(v)@[j],
            forall|j: int| old(v)@.len() <= j < v@.len() ==> v@[j] == 0,
        decreases n - i,
    {
        v.push(0);
        i = i + 1;
    }
}

/// Builds the floating pointer structure: the `_MP_` signature, the pointer
/// to the configuration table, one 16-byte length unit, revision 4 and a
/// zero feature set, checksummed to zero.
fn build_floating_pointer() -> (fp: Vec<u8>)
    ensures
        fp@.len() == MPF_INTEL_LEN,
        checksum_ok(fp@),
        fp@[0] == 0x5f && fp@[1] == 0x4d && fp@[2] == 0x50 && fp@[3] == 0x5f,
{
    let mut fp: Vec<u8> = Vec::new();
    fp.push(0x5f);  // '_'
    fp.push(0x4d);  // 'M'
    fp.push(0x50);  // 'P'
    fp.push(0x5f);  // '_'
    push_u32_le(&mut fp, (MPTABLE_START + MPF_INTEL_LEN as u64) as u32);
    fp.push(1);  // length in 16-byte units
    fp.push(4);  // MP specification revision 1.4
    fp.push(0);  // checksum, fixed below
    push_zeros(&mut fp, 5);  // feature bytes
    let checksum_pos: usize = 10;
    fix_checksum(&mut fp, checksum_pos);
    fp
}

/// Builds the MP configuration table for `num_vcpus` processors and one
/// I/O APIC.
///
/// The table holds the `PCMP` signature, an entry count of `num_vcpus + 1`,
/// one processor entry per vCPU with its local APIC id equal to the vCPU
/// index (the first one marked as the bootstrap processor), and one enabled
/// I/O APIC behind them; its bytes sum to zero modulo 256.
fn build_config_table(num_vcpus: u8) -> (ct: Vec<u8>)
    requires
        num_vcpus >= 1,
    ensures
        ct@.len() == MPC_TABLE_HEADER_LEN + num_vcpus * MPC_CPU_LEN + MPC_IOAPIC_LEN,
        checksum_ok(ct@),
        ct@[0] == 0x50 && ct@[1] == 0x43 && ct@[2] == 0x4d && ct@[3] == 0x50,
        ct@[34] == ((num_vcpus + 1) as u16 & 0xff) as u8,
        ct@[35] == (((num_vcpus + 1) as u16 >> 8) & 0xff) as u8,
        forall|i: int|
            0 <= i < num_vcpus ==> #[trigger] ct@[MPC_TABLE_HEADER_LEN + i * MPC_CPU_LEN] == 0
                && ct@[MPC_TABLE_HEADER_LEN + i * MPC_CPU_LEN + 1] == i as u8,
        ct@[MPC_TABLE_HEADER_LEN + num_vcpus * MPC_CPU_LEN] == 2,
        ct@[MPC_TABLE_HEADER_LEN + num_vcpus * MPC_CPU_LEN + 1] == num_vcpus,
{
    let total_len: usize = MPC_TABLE_HEADER_LEN + num_vcpus as usize * MPC_CPU_LEN
        + MPC_IOAPIC_LEN;
    let entry_count: u16 = num_vcpus as u16 + 1;
    let mut ct: Vec<u8> = Vec::new();
    // header
    ct.push(0x50);  // 'P'
    ct.push(0x43);  // 'C'
    ct.push(0x4d);  // 'M'
    ct.push(0x50);  // 'P'
    ct.push((total_len & 0xff) as u8);
    ct.push(((total_len >> 8) & 0xff) as u8);
    ct.push(4);  // MP specification revision 1.4
    ct.push(0);  // checksum, fixed below
    push_zeros(&mut ct, 20);  // OEM id and product id, blank
    push_u32_le(&mut ct, 0);  // OEM table pointer
    push_zeros(&mut ct, 2);  // OEM table size
    ct.push((entry_count & 0xff) as u8);
    ct.push(((entry_count >> 8) & 0xff) as u8);
    push_u32_le(&mut ct, APIC_DEFAULT_PHYS_BASE);
    push_zeros(&mut ct, 4);  // extended table length and checksum, reserved
    // processor entries, each appended as one piece
    let mut cpu: u8 = 0;
    while cpu < num_vcpus
        invariant
            cpu <= num_vcpus,
            ct@.len() == MPC_TABLE_HEADER_LEN + cpu * MPC_CPU_LEN,
            ct@[0] == 0x50 && ct@[1] == 0x43 && ct@[2] == 0x4d && ct@[3] == 0x50,
            ct@[7] == 0,
            ct@[34] == ((num_vcpus + 1) as u16 & 0xff) as u8,
            ct@[35] == (((num_vcpus + 1) as u16 >> 8) & 0xff) as u8,
            forall|j: int|
                0 <= j < cpu ==> #[trigger] ct@[MPC_TABLE_HEADER_LEN + j * MPC_CPU_LEN] == 0
                    && ct@[MPC_TABLE_HEADER_LEN + j * MPC_CPU_LEN + 1] == j as u8,
        decreases num_vcpus - cpu,
    {
        let mut entry: Vec<u8> = Vec::new();
        entry.push(0);  // entry type: processor
        entry.push(cpu);  // local APIC id
        entry.push(0x14);  // local APIC version
        if cpu == 0 {
            entry.push(3);  // enabled, bootstrap processor
        } else {
            entry.push(1);  // enabled
        }
        push_u32_le(&mut entry, 0x600);  // CPU signature: family 6
        push_u32_le(&mut entry, 0x201);  // features: FPU and APIC
        push_zeros(&mut entry, 8);  // reserved
        proof {
            assert(entry@.len() == MPC_CPU_LEN);
            assert(entry@[0] == 0 && entry@[1] == cpu);
        }
        ct.append(&mut entry);
        cpu = cpu + 1;
    }
    // the I/O APIC entry, appended as one piece
    let mut ioapic: Vec<u8> = Vec::new();
    ioapic.push(2);  // entry type: I/O APIC
    ioapic.push(num_vcpus);  // I/O APIC id, past every local APIC id
    ioapic.push(0x11);  // I/O APIC version
    ioapic.push(1);  // enabled
    push_u32_le(&mut ioapic, IO_APIC_DEFAULT_PHYS_BASE);
    let ghost pre = ct@;
    ct.append(&mut ioapic);
    let ghost mid = ct@;
    let checksum_pos: usize = 7;
    fix_checksum(&mut ct, checksum_pos);
    proof {
        assert forall|i: int|
            0 <= i < num_vcpus implies #[trigger] ct@[MPC_TABLE_HEADER_LEN + i * MPC_CPU_LEN] == 0
            && ct@[MPC_TABLE_HEADER_LEN + i * MPC_CPU_LEN + 1] == i as u8 by {
            let idx = MPC_TABLE_HEADER_LEN + i * MPC_CPU_LEN;
            assert(pre[idx] == 0);
            assert(pre[idx + 1] == i as u8);
            assert(mid[idx] == pre[idx]);
            assert(mid[idx + 1] == pre[idx + 1]);
            assert(ct@[idx] == mid[idx]);
            assert(ct@[idx + 1] == mid[idx + 1]);
        }
    }
    ct
}

/// Builds the MP-table for `num_vcpus` processors.
///
/// Returns the floating pointer and the configuration table, both with a
/// valid signature and both summing to zero modulo 256; the table counts
/// `num_vcpus + 1` entries: one processor per vCPU, its local APIC id the
/// vCPU index, and one I/O APIC behind them. A processor count of zero
/// cannot be described and fails with `Mptable`.
pub fn setup_mptable(num_vcpus: u8) -> (r: Result<MpTable, Error>)
    ensures
        r is Ok <==> num_vcpus >= 1,
        r matches Ok(t) ==> {
            &&& t.floating_pointer@.len() == MPF_INTEL_LEN
            &&& checksum_ok(t.floating_pointer@)
            &&& t.config_table@.len() == MPC_TABLE_HEADER_LEN + num_vcpus * MPC_CPU_LEN
                + MPC_IOAPIC_LEN
            &&& checksum_ok(t.config_table@)
            &&& t.config_table@[34] == ((num_vcpus + 1) as u16 & 0xff) as u8
            &&& t.config_table@[35] == (((num_vcpus + 1) as u16 >> 8) & 0xff) as u8
            &&& forall|i: int|
                0 <= i < num_vcpus ==> #[trigger] t.config_table@[MPC_TABLE_HEADER_LEN + i
                    * MPC_CPU_LEN] == 0 && t.config_table@[MPC_TABLE_HEADER_LEN + i * MPC_CPU_LEN
                    + 1] == i as u8
            &&& t.config_table@[MPC_TABLE_HEADER_LEN + num_vcpus * MPC_CPU_LEN] == 2
            &&& t.config_table@[MPC_TABLE_HEADER_LEN + num_vcpus * MPC_CPU_LEN + 1] == num_vcpus
        },
        r matches Err(e) ==> e == Error::Mptable,
{
    if num_vcpus == 0 {
        return Err(Error::Mptable);
    }
    let floating_pointer = build_floating_pointer();
    let config_table = build_config_table(num_vcpus);
    Ok(MpTable { floating_pointer, config_table })
}

} // verus!
