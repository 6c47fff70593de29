//! Protocol classification of one frame from the layers a dissector
//! recognised in it.
use vstd::prelude::*;
use crate::address::{IpAddress, Ipv4Address, Ipv6Address};

verus! {

/// One layer recognised in a frame, with what classification reads of it.
#[derive(Clone, Copy, Debug, PartialEq, Eq, Structural)]
#[allow(inconsistent_fields)]
pub enum Layer {
    Ethernet,
    Arp { sender: Ipv4Address, target: Ipv4Address },
    Ipv4 { src: Ipv4Address, dst: Ipv4Address },
    Ipv6 { src: Ipv6Address, dst: Ipv6Address },
    Icmp,
    Icmpv6,
    Eapol,
    Udp,
    Tcp,
    Igmp,
    Dhcp,
    Dhcpv6,
    Dns,
    Http,
    Ntp,
    Ssdp,
    Tls,
    NatPmp,
    /// A layer of a kind that classification does not know.
    Unrecognized,
}

/// The protocol label of a frame.
#[derive(Clone, Copy, Debug, PartialEq, Eq, Structural)]
pub enum Protocol {
    Unknown,
    Ethernet,
    Arp,
    Ipv4,
    Ipv6,
    Icmp,
    Icmpv6,
    Eapol,
    Udp,
    Tcp,
    Igmp,
    Dhcp,
    Dhcpv6,
    Dns,
    Http,
    Ntp,
    Ssdp,
    Tls,
    NatPmp,
}

/// The source and destination of a frame.
#[derive(Clone, Copy, Debug, PartialEq, Eq, Structural)]
pub struct Endpoints {
    pub source: IpAddress,
    pub destination: IpAddress,
}

/// What a frame was classified as: its label, and the source and
/// destination of the last layer that carried addresses, if any did.
#[derive(Clone, Copy, Debug, PartialEq, Eq, Structural)]
pub struct Classification {
    pub protocol: Protocol,
    pub endpoints: Option<Endpoints>,
}

pub open spec fn layer_protocol(l: Layer) -> Option<Protocol> {
    match l {
        Layer::Ethernet => Some(Protocol::Ethernet),
        Layer::Arp { .. } => Some(Protocol::Arp),
        Layer::Ipv4 { .. } => Some(Protocol::Ipv4),
        Layer::Ipv6 { .. } => Some(Protocol::Ipv6),
        Layer::Icmp => Some(Protocol::Icmp),
        Layer::Icmpv6 => Some(Protocol::Icmpv6),
        Layer::Eapol => Some(Protocol::Eapol),
        Layer::Udp => Some(Protocol::Udp),
        Layer::Tcp => Some(Protocol::Tcp),
        Layer::Igmp => Some(Protocol::Igmp),
        Layer::Dhcp => Some(Protocol::Dhcp),
        Layer::Dhcpv6 => Some(Protocol::Dhcpv6),
        Layer::Dns => Some(Protocol::Dns),
        Layer::Http => Some(Protocol::Http),
        Layer::Ntp => Some(Protocol::Ntp),
        Layer::Ssdp => Some(Protocol::Ssdp),
        Layer::Tls => Some(Protocol::Tls),
        Layer::NatPmp => Some(Protocol::NatPmp),
        Layer::Unrecognized => None,
    }
}

pub open spec fn layer_endpoints(l: Layer) -> Option<Endpoints> {
    match l {
        Layer::Arp { sender, target } => Some(Endpoints { source: IpAddress::V4(sender), destination: IpAddress::V4(target) }),
        Layer::Ipv4 { src, dst } => Some(Endpoints { source: IpAddress::V4(src), destination: IpAddress::V4(dst) }),
        Layer::Ipv6 { src, dst } => Some(Endpoints { source: IpAddress::V6(src), destination: IpAddress::V6(dst) }),
        _ => None,
    }
}

/// The label of the last recognised layer; `Unknown` when none is.
pub open spec fn frame_protocol(layers: Seq<Layer>) -> Protocol
    decreases layers.len(),
{
    if layers.len() == 0 {
        Protocol::Unknown
    } else {
        match layer_protocol(layers.last()) {
            Some(p) => p,
            None => frame_protocol(layers.drop_last()),
        }
    }
}

/// The addresses of the last layer that carries them.
pub open spec fn frame_endpoints(layers: Seq<Layer>) -> Option<Endpoints>
    decreases layers.len(),
{
    if layers.len() == 0 {
        None
    } else {
        match layer_endpoints(layers.last()) {
            Some(e) => Some(e),
            None => frame_endpoints(layers.drop_last()),
        }
    }
}

pub open spec fn classification_of(layers: Seq<Layer>) -> Classification {
    Classification { protocol: frame_protocol(layers), endpoints: frame_endpoints(layers) }
}

pub open spec fn protocol_text(p: Protocol) -> Seq<char> {
    match p {
        Protocol::Unknown => "unknown"@,
        Protocol::Ethernet => "Ethernet"@,
        Protocol::Arp => "Arp"@,
        Protocol::Ipv4 => "IPv4"@,
        Protocol::Ipv6 => "IPv6"@,
        Protocol::Icmp => "ICMP"@,
        Protocol::Icmpv6 => "ICMPv6"@,
        Protocol::Eapol => "EAPOL"@,
        Protocol::Udp => "UDP"@,
        Protocol::Tcp => "TCP"@,
        Protocol::Igmp => "IGMP"@,
        Protocol::Dhcp => "DHCP"@,
        Protocol::Dhcpv6 => "DHCPv6"@,
        Protocol::Dns => "DNS"@,
        Protocol::Http => "HTTP"@,
        Protocol::Ntp => "NTP"@,
        Protocol::Ssdp => "SSDP"@,
        Protocol::Tls => "TLS"@,
        Protocol::NatPmp => "NAT-PMP"@,
    }
}

impl Protocol {
    /// The label of the protocol as it appears in records.
    pub fn name(&self) -> (r: String)
        ensures
            r@ == protocol_text(*self),
    {
        match self {
            Protocol::Unknown => String::from_str("unknown"),
            Protocol::Ethernet => String::from_str("Ethernet"),
            Protocol::Arp => String::from_str("Arp"),
            Protocol::Ipv4 => String::from_str("IPv4"),
            Protocol::Ipv6 => String::from_str("IPv6"),
            Protocol::Icmp => String::from_str("ICMP"),
            Protocol::Icmpv6 => String::from_str("ICMPv6"),
            Protocol::Eapol => String::from_str("EAPOL"),
            Protocol::Udp => String::from_str("UDP"),
            Protocol::Tcp => String::from_str("TCP"),
            Protocol::Igmp => String::from_str("IGMP"),
            Protocol::Dhcp => String::from_str("DHCP"),
            Protocol::Dhcpv6 => String::from_str("DHCPv6"),
            Protocol::Dns => String::from_str("DNS"),
            Protocol::Http => String::from_str("HTTP"),
            Protocol::Ntp => String::from_str("NTP"),
            Protocol::Ssdp => String::from_str("SSDP"),
            Protocol::Tls => String::from_str("TLS"),
            Protocol::NatPmp => String::from_str("NAT-PMP"),
        }
    }
}

/// What one layer contributes: its label, if recognised, and its addresses,
/// if it carries them.
pub fn inspect_layer(l: Layer) -> (r: (Option<Protocol>, Option<Endpoints>))
    ensures
        r.0 == layer_protocol(l),
        r.1 == layer_endpoints(l),
{
    match l {
        Layer::Ethernet => (Some(Protocol::Ethernet), None),
        Layer::Arp { sender, target } => (
            Some(Protocol::Arp),
            Some(Endpoints { source: IpAddress::V4(sender), destination: IpAddress::V4(target) }),
        ),
        Layer::Ipv4 { src, dst } => (
            Some(Protocol::Ipv4),
            Some(Endpoints { source: IpAddress::V4(src), destination: IpAddress::V4(dst) }),
        ),
        Layer::Ipv6 { src, dst } => (
            Some(Protocol::Ipv6),
            Some(Endpoints { source: IpAddress::V6(src), destination: IpAddress::V6(dst) }),
        ),
        Layer::Icmp => (Some(Protocol::Icmp), None),
        Layer::Icmpv6 => (Some(Protocol::Icmpv6), None),
        Layer::Eapol => (Some(Protocol::Eapol), None),
        Layer::Udp => (Some(Protocol::Udp), None),
        Layer::Tcp => (Some(Protocol::Tcp), None),
        Layer::Igmp => (Some(Protocol::Igmp), None),
        Layer::Dhcp => (Some(Protocol::Dhcp), None),
        Layer::Dhcpv6 => (Some(Protocol::Dhcpv6), None),
        Layer::Dns => (Some(Protocol::Dns), None),
        Layer::Http => (Some(Protocol::Http), None),
        Layer::Ntp => (Some(Protocol::Ntp), None),
        Layer::Ssdp => (Some(Protocol::Ssdp), None),
        Layer::Tls => (Some(Protocol::Tls), None),
        Layer::NatPmp => (Some(Protocol::NatPmp), None),
        Layer::Unrecognized => (None, None),
    }
}

/// Scans the layers in order: each recognised layer sets the label and each
/// layer that carries addresses sets the endpoints, so the last one wins.
pub fn classify_layers(layers: &Vec<Layer>) -> (c: Classification)
    ensures
        c == classification_of(layers@),
{
    let mut protocol = Protocol::Unknown;
    let mut endpoints: Option<Endpoints> = None;
    let mut i: usize = 0;
    while i < layers.len()
        invariant
            i <= layers@.len(),
            protocol == frame_protocol(layers@.take(i as int)),
            endpoints == frame_endpoints(layers@.take(i as int)),
        decreases layers@.len() - i,
    {
        let (p, e) = inspect_layer(layers[i]);
        if let Some(p) = p {
            protocol = p;
        }
        if let Some(e) = e {
            endpoints = Some(e);
        }
        assert(layers@.take(i + 1).drop_last() =~= layers@.take(i as int));
        i = i + 1;
    }
    assert(layers@.take(i as int) =~= layers@);
    Classification { protocol, endpoints }
}

} // verus!
