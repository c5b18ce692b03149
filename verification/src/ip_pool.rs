//! Guest IP address pool.
//!
//! Allocates addresses from an inclusive pool to named VMs: a VM that
//! already holds an address gets the same one again, a new VM gets the
//! lowest free address, and an exhausted pool is reported as such.
//! Releasing frees the VM's address for reuse. The allocation table is
//! plain state; the surrounding binary persists it as JSON on disk and
//! hands it back in.
use vstd::prelude::*;

use crate::numfmt::{append_dec, spec_dec};

verus! {

/// The persistent allocation table: which VM holds which address,
/// rendered as dotted-quad text, in order of allocation.
#[derive(Debug)]
pub struct IpManagerState {
    pub allocations: Vec<(String, String)>,
}

/// Errors of the IP pool.
#[derive(Clone, Copy, Debug, PartialEq, Eq, Structural)]
pub enum IpManagerError {
    /// Reading or writing the backing file failed.
    Io,
    /// The backing file held no valid table.
    Json,
    /// Every address of the pool is taken.
    PoolExhausted,
    /// The VM already holds an address.
    VmAlreadyHasIp,
}

/// The pool: its inclusive address range and the allocation table.
#[derive(Debug)]
pub struct IpManager {
    pub start_ip: u32,
    pub end_ip: u32,
    pub state: IpManagerState,
}

/// The dotted-quad rendering of an address.
pub open spec fn spec_ip_string(v: int) -> Seq<char> {
    spec_dec((((v / 0x100_0000) % 256) as nat)) + seq!['.'] + spec_dec(
        (((v / 0x1_0000) % 256) as nat),
    ) + seq!['.'] + spec_dec((((v / 0x100) % 256) as nat)) + seq!['.'] + spec_dec(
        ((v % 256) as nat),
    )
}

/// The position of the first entry for `id`, if any.
pub open spec fn spec_find_index(allocs: Seq<(String, String)>, id: Seq<char>) -> Option<int>
    decreases allocs.len(),
{
    if allocs.len() == 0 {
        Option::None
    } else if allocs[0].0@ == id {
        Option::Some(0int)
    } else {
        match spec_find_index(allocs.skip(1), id) {
            Option::Some(k) => Option::Some(k + 1),
            Option::None => Option::None,
        }
    }
}

/// The address the table holds for `id`, if any.
pub open spec fn spec_lookup(allocs: Seq<(String, String)>, id: Seq<char>) -> Option<Seq<char>> {
    match spec_find_index(allocs, id) {
        Option::Some(i) => Option::Some(allocs[i].1@),
        Option::None => Option::None,
    }
}

/// Some entry of the table holds the address `ip`.
pub open spec fn spec_holds_ip(allocs: Seq<(String, String)>, ip: Seq<char>) -> bool {
    exists|j: int| 0 <= j < allocs.len() && (#[trigger] allocs[j]).1@ == ip
}

/// The lowest free address in `[lo, hi]`, if any.
pub open spec fn spec_first_free(allocs: Seq<(String, String)>, lo: int, hi: int) -> Option<int>
    decreases hi + 1 - lo,
{
    if lo > hi {
        Option::None
    } else if spec_holds_ip(allocs, spec_ip_string(lo)) {
        spec_first_free(allocs, lo + 1, hi)
    } else {
        Option::Some(lo)
    }
}

/// An entry at `i` whose key matches, behind only mismatches, is the first.
proof fn lemma_find_index_at(s: Seq<(String, String)>, id: Seq<char>, i: int)
    requires
        0 <= i < s.len(),
        s[i].0@ == id,
        forall|j: int| 0 <= j < i ==> (#[trigger] s[j]).0@ != id,
    ensures
        spec_find_index(s, id) == Option::Some(i),
    decreases i,
{
    if i == 0 {
    } else {
        assert(s.skip(1)[i - 1] == s[i]);
        assert forall|j: int| 0 <= j < i - 1 implies (#[trigger] s.skip(1)[j]).0@ != id by {
            assert(s.skip(1)[j] == s[j + 1]);
        }
        lemma_find_index_at(s.skip(1), id, i - 1);
    }
}

/// A table with no matching key has no entry for `id`.
proof fn lemma_find_index_absent(s: Seq<(String, String)>, id: Seq<char>)
    requires
        forall|j: int| 0 <= j < s.len() ==> (#[trigger] s[j]).0@ != id,
    ensures
        spec_find_index(s, id) is None,
    decreases s.len(),
{
    if s.len() > 0 {
        assert forall|j: int| 0 <= j < s.len() - 1 implies (#[trigger] s.skip(1)[j]).0@ != id by {
            assert(s.skip(1)[j] == s[j + 1]);
        }
        lemma_find_index_absent(s.skip(1), id);
    }
}

/// Renders an address as dotted-quad text, exactly as `spec_ip_string`.
pub fn ip_to_string(v: u32) -> (r: String)
    ensures
        r@ == spec_ip_string(v as int),
{
    let mut s = String::new();
    append_dec(&mut s, ((v / 0x100_0000) % 256) as u64);
    s.append(".");
    append_dec(&mut s, ((v / 0x1_0000) % 256) as u64);
    s.append(".");
    append_dec(&mut s, ((v / 0x100) % 256) as u64);
    s.append(".");
    append_dec(&mut s, (v % 256) as u64);
    proof {
        reveal_strlit(".");
        assert(s@ =~= spec_ip_string(v as int));
    }
    s
}

impl IpManager {
    /// A pool over the inclusive range `[start_ip, end_ip]` with an empty
    /// table; the caller hands both addresses as 32-bit integers.
    pub fn new(start_ip: u32, end_ip: u32) -> (r: Self)
        ensures
            r.start_ip == start_ip,
            r.end_ip == end_ip,
            r.state.allocations@.len() == 0,
    {
        IpManager { start_ip, end_ip, state: IpManagerState { allocations: Vec::new() } }
    }

    /// A pool with a table read back from persistence.
    pub fn with_state(start_ip: u32, end_ip: u32, state: IpManagerState) -> (r: Self)
        ensures
            r.start_ip == start_ip,
            r.end_ip == end_ip,
            r.state.allocations@ == state.allocations@,
    {
        IpManager { start_ip, end_ip, state }
    }

    /// Finds the first entry for `id`; the returned position carries the
    /// proof that it is the one `spec_find_index` names.
    fn find_entry(&self, id: &String) -> (r: Option<usize>)
        ensures
            match r {
                Some(i) => spec_find_index(self.state.allocations@, id@) == Option::Some(i as int)
                    && i < self.state.allocations@.len() && self.state.allocations@[i as int].0@
                    == id@,
                None => spec_find_index(self.state.allocations@, id@) is None,
            },
    {
        let n = self.state.allocations.len();
        let mut i: usize = 0;
        while i < n
            invariant
                i <= n,
                n == self.state.allocations@.len(),
                forall|j: int| 0 <= j < i ==> (#[trigger] self.state.allocations@[j]).0@ != id@,
            decreases n - i,
        {
            if self.state.allocations[i].0 == *id {
                proof {
                    lemma_find_index_at(self.state.allocations@, id@, i as int);
                }
                return Some(i);
            }
            i = i + 1;
        }
        proof {
            lemma_find_index_absent(self.state.allocations@, id@);
        }
        None
    }

    /// Whether some entry already holds the address `ip`.
    fn ip_taken(&self, ip: &String) -> (r: bool)
        ensures
            r == spec_holds_ip(self.state.allocations@, ip@),
    {
        let n = self.state.allocations.len();
        let mut j: usize = 0;
        while j < n
            invariant
                j <= n,
                n == self.state.allocations@.len(),
                forall|k: int| 0 <= k < j ==> (#[trigger] self.state.allocations@[k]).1@ != ip@,
            decreases n - j,
        {
            if self.state.allocations[j].1 == *ip {
                return true;
            }
            j = j + 1;
        }
        false
    }

    /// Allocates an address for `vm_id`.
    ///
    /// A VM that already holds one gets exactly that address back and the
    /// table stays as it is; otherwise the lowest free address of the pool
    /// is appended to the table and returned; with no address left the
    /// call fails with `PoolExhausted` and the table stays as it is.
    pub fn allocate_ip(&mut self, vm_id: &str) -> (r: Result<String, IpManagerError>)
        ensures
            final(self).start_ip == old(self).start_ip,
            final(self).end_ip == old(self).end_ip,
            match spec_lookup(old(self).state.allocations@, vm_id@) {
                Option::Some(ip) => r matches Ok(s) && s@ == ip && final(self).state.allocations@
                    == old(self).state.allocations@,
                Option::None => match spec_first_free(
                    old(self).state.allocations@,
                    old(self).start_ip as int,
                    old(self).end_ip as int,
                ) {
                    Option::Some(v) => {
                        &&& r matches Ok(s) && s@ == spec_ip_string(v)
                        &&& final(self).state.allocations@.len() == old(self).state.allocations@.len() + 1
                        &&& final(self).state.allocations@.last().0@ == vm_id@
                        &&& final(self).state.allocations@.last().1@ == spec_ip_string(v)
                        &&& forall|j: int|
                            0 <= j < old(self).state.allocations@.len() ==> final(self).state.allocations@[j] == #[trigger] old(self).state.allocations@[j]
                    },
                    Option::None => r matches Err(e) && e == IpManagerError::PoolExhausted && final(self).state.allocations@ == old(self).state.allocations@,
                },
            },
    {
        let owned = vm_id.to_owned();
        match self.find_entry(&owned) {
            Some(i) => {
                return Ok(self.state.allocations[i].1.clone());
            },
            None => {},
        }
        let mut cand: u64 = self.start_ip as u64;
        while cand <= self.end_ip as u64
            invariant
                self.start_ip as u64 <= cand,
                owned@ == vm_id@,
                spec_find_index(self.state.allocations@, vm_id@) is None,
                self.start_ip == old(self).start_ip,
                self.end_ip == old(self).end_ip,
                self.state.allocations@ == old(self).state.allocations@,
                spec_first_free(
                    self.state.allocations@,
                    self.start_ip as int,
                    self.end_ip as int,
                ) == spec_first_free(self.state.allocations@, cand as int, self.end_ip as int),
            decreases self.end_ip as u64 + 1 - cand,
        {
            let ip = ip_to_string(cand as u32);
            proof {
                assert(cand as u32 as int == cand as int);
            }
            if !self.ip_taken(&ip) {
                proof {
                    assert(spec_first_free(
                        self.state.allocations@,
                        cand as int,
                        self.end_ip as int,
                    ) == Option::Some(cand as int));
                }
                let ip_result = ip.clone();
                self.state.allocations.push((owned, ip));
                return Ok(ip_result);
            }
            proof {
                assert(spec_first_free(self.state.allocations@, cand as int, self.end_ip as int)
                    == spec_first_free(
                    self.state.allocations@,
                    cand as int + 1,
                    self.end_ip as int,
                ));
            }
            cand = cand + 1;
        }
        Err(IpManagerError::PoolExhausted)
    }

    /// Releases the address `vm_id` holds: reports true and removes the
    /// entry when there was one, false otherwise; no other entry moves
    /// relative to the rest.
    pub fn release_ip(&mut self, vm_id: &str) -> (r: Result<bool, IpManagerError>)
        ensures
            final(self).start_ip == old(self).start_ip,
            final(self).end_ip == old(self).end_ip,
            match spec_find_index(old(self).state.allocations@, vm_id@) {
                Option::Some(i) => r matches Ok(b) && b && final(self).state.allocations@ == old(self).state.allocations@.remove(i),
                Option::None => r matches Ok(b) && !b && final(self).state.allocations@ == old(self).state.allocations@,
            },
    {
        let owned = vm_id.to_owned();
        match self.find_entry(&owned) {
            Some(i) => {
                self.state.allocations.remove(i);
                Ok(true)
            },
            None => Ok(false),
        }
    }
}

} // verus!
