//! Host-side network setup decisions.
//!
//! The backend creates a bridge for the guests and installs one masquerade
//! rule for their subnet. This module fixes the names and addresses and
//! decides whether an existing ruleset already carries the wanted rule;
//! the netlink and ruleset plumbing lives in the surrounding binary and
//! hands the fields of each rule in as plain values.
use vstd::prelude::*;

verus! {

/// Name of the bridge the guests attach to, unless overridden.
pub fn default_bridge_name() -> (r: &'static str)
    ensures
        r@ == "cloudebr0"@,
{
    "cloudebr0"
}

/// The bridge's own address, unless overridden.
pub fn default_bridge_ip() -> (r: &'static str)
    ensures
        r@ == "192.168.39.39"@,
{
    "192.168.39.39"
}

/// The guest subnet the masquerade rule covers.
pub fn nat_subnet_addr() -> (r: &'static str)
    ensures
        r@ == "192.168.39.0"@,
{
    "192.168.39.0"
}

/// Prefix length of the guest subnet.
pub const NAT_SUBNET_PREFIX_LEN: u32 = 24;

/// Decides whether a source-prefix match found in a rule covers exactly
/// the guest subnet.
pub fn is_subnet_match(addr: &str, prefix_len: u32) -> (r: bool)
    ensures
        r == (addr@ == "192.168.39.0"@ && prefix_len == NAT_SUBNET_PREFIX_LEN),
{
    let a = addr.to_owned();
    a == String::from_str("192.168.39.0") && prefix_len == NAT_SUBNET_PREFIX_LEN
}

/// Mask length of the bridge address.
pub const BRIDGE_PREFIX_LEN: u8 = 24;

/// Decides whether one rule of the current ruleset is the masquerade rule
/// the setup would install: an IP-family rule in the `nat` table's
/// `POSTROUTING` chain that matches the guest subnet as source prefix and
/// masquerades.
pub fn is_target_nat_rule(
    family_is_ip: bool,
    table: &str,
    chain: &str,
    has_subnet_match: bool,
    has_masquerade: bool,
) -> (r: bool)
    ensures
        r == (family_is_ip && table@ == "nat"@ && chain@ == "POSTROUTING"@ && has_subnet_match
            && has_masquerade),
{
    if !family_is_ip || !has_subnet_match || !has_masquerade {
        return false;
    }
    let t = table.to_owned();
    let c = chain.to_owned();
    t == String::from_str("nat") && c == String::from_str("POSTROUTING")
}

} // verus!
