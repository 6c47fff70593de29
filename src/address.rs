//! IP addresses as plain values, their provenance group, and their text.
use vstd::prelude::*;

verus! {

/// An IPv4 address, octet by octet, most significant first.
#[derive(Clone, Copy, Debug, PartialEq, Eq, Structural)]
pub struct Ipv4Address(pub u8, pub u8, pub u8, pub u8);

/// An IPv6 address, as eight 16-bit segments, most significant first.
#[derive(Clone, Copy, Debug, PartialEq, Eq, Structural)]
pub struct Ipv6Address(pub u16, pub u16, pub u16, pub u16, pub u16, pub u16, pub u16, pub u16);

/// An IP address of either family.
#[derive(Clone, Copy, Debug, PartialEq, Eq, Structural)]
pub enum IpAddress {
    V4(Ipv4Address),
    V6(Ipv6Address),
}

/// Provenance group of an address.
#[derive(Clone, Copy, Debug, PartialEq, Eq, Structural)]
pub enum Group {
    Desktop,
    Broadcast,
    Internet,
    Unknown,
    Other,
}

pub open spec fn ipv6_segments(a: Ipv6Address) -> Seq<u16> {
    seq![a.0, a.1, a.2, a.3, a.4, a.5, a.6, a.7]
}

// ---- IPv4 predicates ----

pub open spec fn v4_is_multicast(a: Ipv4Address) -> bool {
    224 <= a.0 <= 239
}

pub open spec fn v4_is_unspecified(a: Ipv4Address) -> bool {
    a.0 == 0 && a.1 == 0 && a.2 == 0 && a.3 == 0
}

/// TEST-NET-1, TEST-NET-2 and TEST-NET-3.
pub open spec fn v4_is_documentation(a: Ipv4Address) -> bool {
    (a.0 == 192 && a.1 == 0 && a.2 == 2) || (a.0 == 198 && a.1 == 51 && a.2 == 100) || (a.0 == 203
        && a.1 == 0 && a.2 == 113)
}

/// Ranges that are not reachable on the public internet.
pub open spec fn v4_is_special(a: Ipv4Address) -> bool {
    ||| a.0 == 0  // this network
    ||| a.0 == 10  // private
    ||| (a.0 == 172 && 16 <= a.1 <= 31)  // private
    ||| (a.0 == 192 && a.1 == 168)  // private
    ||| (a.0 == 100 && 64 <= a.1 <= 127)  // shared address space
    ||| a.0 == 127  // loopback
    ||| (a.0 == 169 && a.1 == 254)  // link local
    ||| (a.0 == 192 && a.1 == 0 && a.2 == 0 && a.3 != 9 && a.3 != 10)  // protocol assignments
    ||| (a.0 == 198 && 18 <= a.1 <= 19)  // benchmarking
    ||| a.0 >= 240  // reserved and limited broadcast
}

/// Public unicast: not special, not documentation, not multicast.
pub open spec fn v4_is_global(a: Ipv4Address) -> bool {
    !v4_is_special(a) && !v4_is_documentation(a) && !v4_is_multicast(a)
}

// ---- IPv6 predicates ----

pub open spec fn v6_is_multicast(a: Ipv6Address) -> bool {
    a.0 >= 0xff00
}

pub open spec fn v6_is_unspecified(a: Ipv6Address) -> bool {
    a.0 == 0 && a.1 == 0 && a.2 == 0 && a.3 == 0 && a.4 == 0 && a.5 == 0 && a.6 == 0 && a.7 == 0
}

/// 2001:db8::/32.
pub open spec fn v6_is_documentation(a: Ipv6Address) -> bool {
    a.0 == 0x2001 && a.1 == 0xdb8
}

pub open spec fn v6_is_loopback(a: Ipv6Address) -> bool {
    a.0 == 0 && a.1 == 0 && a.2 == 0 && a.3 == 0 && a.4 == 0 && a.5 == 0 && a.6 == 0 && a.7 == 1
}

/// IETF protocol assignments (2001::/23), minus the ranges in it that are
/// globally reachable.
pub open spec fn v6_is_protocol_assignment(a: Ipv6Address) -> bool {
    &&& a.0 == 0x2001
    &&& a.1 < 0x200
    &&& !(a.1 == 1 && a.2 == 0 && a.3 == 0 && a.4 == 0 && a.5 == 0 && a.6 == 0 && (a.7 == 1 || a.7
        == 2))
    &&& a.1 != 3
    &&& !(a.1 == 4 && a.2 == 0x112)
    &&& !(0x20 <= a.1 <= 0x2f)
}

/// Ranges that are not reachable on the public internet.
pub open spec fn v6_is_special(a: Ipv6Address) -> bool {
    ||| v6_is_unspecified(a)
    ||| v6_is_loopback(a)
    ||| (a.0 == 0 && a.1 == 0 && a.2 == 0 && a.3 == 0 && a.4 == 0 && a.5 == 0xffff)  // IPv4-mapped
    ||| (a.0 == 0x64 && a.1 == 0xff9b && a.2 == 1)  // local-use NAT64 prefix
    ||| (a.0 == 0x100 && a.1 == 0 && a.2 == 0 && a.3 == 0)  // discard only
    ||| v6_is_protocol_assignment(a)
    ||| a.0 == 0x2002  // 6to4
    ||| (0xfc00 <= a.0 <= 0xfdff)  // unique local
    ||| (0xfe80 <= a.0 <= 0xfebf)  // unicast link local
}

/// Public unicast: not special, not documentation, not multicast.
pub open spec fn v6_is_global(a: Ipv6Address) -> bool {
    !v6_is_special(a) && !v6_is_documentation(a) && !v6_is_multicast(a)
}

// ---- both families ----

pub open spec fn is_multicast(a: IpAddress) -> bool {
    match a {
        IpAddress::V4(x) => v4_is_multicast(x),
        IpAddress::V6(x) => v6_is_multicast(x),
    }
}

pub open spec fn is_global(a: IpAddress) -> bool {
    match a {
        IpAddress::V4(x) => v4_is_global(x),
        IpAddress::V6(x) => v6_is_global(x),
    }
}

pub open spec fn is_unspecified(a: IpAddress) -> bool {
    match a {
        IpAddress::V4(x) => v4_is_unspecified(x),
        IpAddress::V6(x) => v6_is_unspecified(x),
    }
}

pub open spec fn is_documentation(a: IpAddress) -> bool {
    match a {
        IpAddress::V4(x) => v4_is_documentation(x),
        IpAddress::V6(x) => v6_is_documentation(x),
    }
}

/// The group of an address: four checks in a fixed order, the last one that
/// holds deciding; `Desktop` when none holds.
pub open spec fn group_spec(a: IpAddress) -> Group {
    if is_documentation(a) {
        Group::Other
    } else if is_unspecified(a) {
        Group::Unknown
    } else if is_global(a) {
        Group::Internet
    } else if is_multicast(a) {
        Group::Broadcast
    } else {
        Group::Desktop
    }
}

pub fn address_is_multicast(a: IpAddress) -> (r: bool)
    ensures
        r == is_multicast(a),
{
    match a {
        IpAddress::V4(x) => 224 <= x.0 && x.0 <= 239,
        IpAddress::V6(x) => x.0 >= 0xff00,
    }
}

pub fn address_is_unspecified(a: IpAddress) -> (r: bool)
    ensures
        r == is_unspecified(a),
{
    match a {
        IpAddress::V4(x) => x == Ipv4Address(0, 0, 0, 0),
        IpAddress::V6(x) => x == Ipv6Address(0, 0, 0, 0, 0, 0, 0, 0),
    }
}

pub fn address_is_documentation(a: IpAddress) -> (r: bool)
    ensures
        r == is_documentation(a),
{
    match a {
        IpAddress::V4(x) => {
            (x.0 == 192 && x.1 == 0 && x.2 == 2) || (x.0 == 198 && x.1 == 51 && x.2 == 100) || (x.0
                == 203 && x.1 == 0 && x.2 == 113)
        },
        IpAddress::V6(x) => x.0 == 0x2001 && x.1 == 0xdb8,
    }
}

fn v4_special(a: Ipv4Address) -> (r: bool)
    ensures
        r == v4_is_special(a),
{
    a.0 == 0 || a.0 == 10 || (a.0 == 172 && 16 <= a.1 && a.1 <= 31) || (a.0 == 192 && a.1 == 168)
        || (a.0 == 100 && 64 <= a.1 && a.1 <= 127) || a.0 == 127 || (a.0 == 169 && a.1 == 254) || (
    a.0 == 192 && a.1 == 0 && a.2 == 0 && a.3 != 9 && a.3 != 10) || (a.0 == 198 && 18 <= a.1 && a.1
        <= 19) || a.0 >= 240
}

fn v6_special(a: Ipv6Address) -> (r: bool)
    ensures
        r == v6_is_special(a),
{
    let assignment = a.0 == 0x2001 && a.1 < 0x200 && !(a.1 == 1 && a.2 == 0 && a.3 == 0 && a.4 == 0
        && a.5 == 0 && a.6 == 0 && (a.7 == 1 || a.7 == 2)) && a.1 != 3 && !(a.1 == 4 && a.2 == 0x112)
        && !(0x20 <= a.1 && a.1 <= 0x2f);
    a == Ipv6Address(0, 0, 0, 0, 0, 0, 0, 0) || a == Ipv6Address(0, 0, 0, 0, 0, 0, 0, 1) || (a.0 == 0
        && a.1 == 0 && a.2 == 0 && a.3 == 0 && a.4 == 0 && a.5 == 0xffff) || (a.0 == 0x64 && a.1
        == 0xff9b && a.2 == 1) || (a.0 == 0x100 && a.1 == 0 && a.2 == 0 && a.3 == 0) || assignment
        || a.0 == 0x2002 || (0xfc00 <= a.0 && a.0 <= 0xfdff) || (0xfe80 <= a.0 && a.0 <= 0xfebf)
}

pub fn address_is_global(a: IpAddress) -> (r: bool)
    ensures
        r == is_global(a),
{
    let special = match a {
        IpAddress::V4(x) => v4_special(x),
        IpAddress::V6(x) => v6_special(x),
    };
    !special && !address_is_documentation(a) && !address_is_multicast(a)
}

/// Classifies an address: multicast gives `Broadcast`, then globally
/// routable gives `Internet`, then unspecified gives `Unknown`, then a
/// documentation range gives `Other`; each check that holds overwrites the
/// result of the earlier ones.
pub fn classify_address(a: IpAddress) -> (g: Group)
    ensures
        g == group_spec(a),
{
    let mut g = Group::Desktop;
    if address_is_multicast(a) {
        g = Group::Broadcast;
    }
    if address_is_global(a) {
        g = Group::Internet;
    }
    if address_is_unspecified(a) {
        g = Group::Unknown;
    }
    if address_is_documentation(a) {
        g = Group::Other;
    }
    g
}

pub open spec fn group_text(g: Group) -> Seq<char> {
    match g {
        Group::Desktop => "desktop"@,
        Group::Broadcast => "broadcast"@,
        Group::Internet => "internet"@,
        Group::Unknown => "unknown"@,
        Group::Other => "other"@,
    }
}

/// The label of a group as it appears in records.
pub fn group_name(g: Group) -> (r: String)
    ensures
        r@ == group_text(g),
{
    match g {
        Group::Desktop => String::from_str("desktop"),
        Group::Broadcast => String::from_str("broadcast"),
        Group::Internet => String::from_str("internet"),
        Group::Unknown => String::from_str("unknown"),
        Group::Other => String::from_str("other"),
    }
}

} // verus!
