//! Kernel command-line assembly.
//!
//! The command line handed to the guest kernel is the operator-supplied
//! base followed by the fragments the devices contributed, in the order
//! they were added; each fragment carries its own leading space.
use vstd::prelude::*;

verus! {

/// The concatenation of all fragments, in order.
pub open spec fn spec_joined(parts: Seq<Seq<char>>) -> Seq<char>
    decreases parts.len(),
{
    if parts.len() == 0 {
        Seq::empty()
    } else {
        spec_joined(parts.drop_last()) + parts.last()
    }
}

/// The base command line the VMM recommends: serial console, quiet boot,
/// reboot-free panic.
pub fn default_cmdline() -> (r: &'static str)
    ensures
        r@ == "console=ttyS0 quiet panic=-1"@,
{
    "console=ttyS0 quiet panic=-1"
}

/// Joins the base command line with every device fragment, in order,
/// changing no character of either.
pub fn assemble_cmdline(base: &str, fragments: &Vec<String>) -> (r: String)
    ensures
        r@ == base@ + spec_joined(fragments@.map_values(|s: String| s@)),
{
    let mut s = String::new();
    s.append(base);
    let mut i: usize = 0;
    while i < fragments.len()
        invariant
            i <= fragments@.len(),
            s@ == base@ + spec_joined(fragments@.take(i as int).map_values(|f: String| f@)),
        decreases fragments@.len() - i,
    {
        s.append(fragments[i].as_str());
        proof {
            let mapped = fragments@.take(i + 1).map_values(|f: String| f@);
            assert(mapped.drop_last() =~= fragments@.take(i as int).map_values(|f: String| f@));
            assert(mapped.last() == fragments@[i as int]@);
            assert(s@ =~= base@ + spec_joined(mapped));
        }
        i = i + 1;
    }
    proof {
        assert(fragments@.take(fragments@.len() as int) =~= fragments@);
    }
    s
}

} // verus!
