//! The decoded headers of a frame, as plain values: what a summary is made from.

use vstd::prelude::*;

verus! {

/// An Ethernet II header.
#[derive(Clone, Copy, Debug, PartialEq, Eq)]
pub struct EthernetInfo {
    pub source: [u8; 6],
    pub destination: [u8; 6],
    pub ether_type: u16,
}

/// The Ethernet/IPv4 view of an ARP packet.
#[derive(Clone, Copy, Debug, PartialEq, Eq)]
pub struct ArpEthIpv4 {
    pub operation: u16,
    pub sender_mac: [u8; 6],
    pub sender_ipv4: [u8; 4],
    pub target_ipv4: [u8; 4],
}

/// The network layer: an IP header or an ARP packet.
#[derive(Clone, Copy, Debug, PartialEq, Eq)]
#[allow(inconsistent_fields)]
pub enum NetInfo {
    Ipv4 { source: [u8; 4], destination: [u8; 4], protocol: u8 },
    Ipv6 { source: [u8; 16], destination: [u8; 16], next_header: u8 },
    /// `eth_ipv4` is present when the packet maps Ethernet addresses to IPv4 ones.
    Arp { operation: u16, eth_ipv4: Option<ArpEthIpv4> },
}

/// The type of an ICMPv4 message, with what a summary shows of it.
#[derive(Clone, Copy, Debug, PartialEq, Eq)]
pub enum Icmpv4Info {
    EchoRequest { id: u16, seq: u16 },
    EchoReply { id: u16, seq: u16 },
    DestinationUnreachable,
    TimeExceeded,
    /// Any other type, by its first two bytes on the wire.
    Other { type_u8: u8, code_u8: u8 },
}

/// The ports and flags of a TCP header.
#[derive(Clone, Copy, Debug, PartialEq, Eq)]
pub struct TcpInfo {
    pub source_port: u16,
    pub destination_port: u16,
    pub syn: bool,
    pub fin: bool,
    pub rst: bool,
    pub psh: bool,
    pub ack: bool,
}

/// The transport layer.
#[derive(Clone, Copy, Debug, PartialEq, Eq)]
pub enum TransportInfo {
    Tcp(TcpInfo),
    Udp { source_port: u16, destination_port: u16 },
    Icmpv4(Icmpv4Info),
    Icmpv6 { type_u8: u8, code_u8: u8 },
    /// An IGMP message; summaries show it as a packet without a transport header.
    Igmp,
}

/// All the headers of a frame that a summary reads, and the length of what follows them.
#[derive(Clone, Copy, Debug, PartialEq, Eq)]
pub struct Headers {
    pub link: Option<EthernetInfo>,
    pub net: Option<NetInfo>,
    pub transport: Option<TransportInfo>,
    pub payload_len: usize,
}

} // verus!
