//! Turns raw captured bytes into a one-line summary: picks where the packet starts
//! for each link type, has `etherparse` decode the headers, then summarizes them.

use vstd::prelude::*;
use etherparse::err::packet::SliceError;
use etherparse::{
    ArpPacket, EtherType, Icmpv4Header, Icmpv4Type, Icmpv6Header, LinkHeader, NetHeaders, PacketHeaders,
    TransportHeader,
};
use crate::headers::{ArpEthIpv4, EthernetInfo, Headers, Icmpv4Info, NetInfo, TcpInfo, TransportInfo};
use crate::linktype;
use crate::summary::{summarize, summary_of, Summary, SummaryView};

verus! {

/// Where the headers of a captured frame start, and how to read the first one.
#[derive(Clone, Copy, Debug, PartialEq, Eq)]
pub enum Framing {
    /// An Ethernet II header at the start.
    Ethernet,
    /// An IP packet from byte `start` on.
    Ip { start: usize },
    /// From byte `start` on, a packet of the given ether type.
    EtherType { ether_type: u16, start: usize },
}

/// A big-endian 16-bit number.
pub open spec fn be_u16(high: u8, low: u8) -> u16 {
    (high as int * 256 + low as int) as u16
}

/// How a frame of the given link type is read, or `None` when the link type is not
/// supported or the frame is too short for its link header.
pub open spec fn framing_of(link_type: i32, data: Seq<u8>) -> Option<Framing> {
    if link_type == linktype::ETHERNET {
        Some(Framing::Ethernet)
    } else if link_type == linktype::NULL || link_type == linktype::LOOP {
        if data.len() >= 4 { Some(Framing::Ip { start: 4 }) } else { None }
    } else if link_type == linktype::RAW || link_type == linktype::IPV4 || link_type == linktype::IPV6 {
        Some(Framing::Ip { start: 0 })
    } else if link_type == linktype::LINUX_SLL {
        if data.len() >= 16 {
            Some(Framing::EtherType { ether_type: be_u16(data[14], data[15]), start: 16 })
        } else {
            None
        }
    } else if link_type == linktype::LINUX_SLL2 {
        if data.len() >= 20 {
            Some(Framing::EtherType { ether_type: be_u16(data[0], data[1]), start: 20 })
        } else {
            None
        }
    } else {
        None
    }
}

/// The headers that `PacketHeaders::from_ethernet_slice` decodes from a frame that
/// starts with an Ethernet II header, as plain values; `None` when it fails.
pub uninterp spec fn ethernet_headers(data: Seq<u8>) -> Option<Headers>;

/// The headers that `PacketHeaders::from_ip_slice` decodes from a packet that starts
/// with an IP header, as plain values; `None` when it fails.
pub uninterp spec fn ip_headers(data: Seq<u8>) -> Option<Headers>;

/// The headers that `PacketHeaders::from_ether_type` decodes from a packet of the
/// given ether type, as plain values; `None` when it fails.
pub uninterp spec fn ether_type_headers(ether_type: u16, data: Seq<u8>) -> Option<Headers>;

/// The ether types that `etherparse` reads further: IPv4, IPv6, ARP, VLAN tags and MACsec.
pub open spec fn is_decoded_ether_type(ether_type: u16) -> bool {
    ether_type == 0x0800 || ether_type == 0x86dd || ether_type == 0x0806 || ether_type == 0x8100
        || ether_type == 0x88a8 || ether_type == 0x9100 || ether_type == 0x88e5
}

/// Whether `e` is the Ethernet II header in the first 14 bytes of `data`: the
/// destination MAC, the source MAC, then the ether type in big endian.
pub open spec fn is_ethernet_header_of(e: EthernetInfo, data: Seq<u8>) -> bool {
    &&& data.len() >= 14
    &&& e.destination@ == data.subrange(0, 6)
    &&& e.source@ == data.subrange(6, 12)
    &&& e.ether_type == be_u16(data[12], data[13])
}

/// Whether nothing was decoded past the link layer, the rest of `payload_len` bytes
/// being payload.
pub open spec fn is_link_only(h: Headers, payload_len: int) -> bool {
    &&& h.net is None
    &&& h.transport is None
    &&& h.payload_len == payload_len
}

/// Whether the decoded headers `h` begin with the Ethernet II header in the first 14
/// bytes of `data`.
pub open spec fn has_ethernet_header(h: Option<Headers>, data: Seq<u8>) -> bool {
    h matches Some(x) && x.link matches Some(e) && is_ethernet_header_of(e, data)
}

/// Whether headers were decoded with nothing past the link layer, the rest of
/// `payload_len` bytes being payload.
pub open spec fn decodes_link_only(h: Option<Headers>, payload_len: int) -> bool {
    h matches Some(x) && is_link_only(x, payload_len)
}

/// Whether headers were decoded without any header at all, the whole `payload_len`
/// bytes being payload.
pub open spec fn decodes_payload_only(h: Option<Headers>, payload_len: int) -> bool {
    h matches Some(x) && x.link is None && is_link_only(x, payload_len)
}

/// Where the headers of a frame read as `f` start.
pub open spec fn start_of(f: Framing) -> int {
    match f {
        Framing::Ethernet => 0,
        Framing::Ip { start } => start as int,
        Framing::EtherType { start, .. } => start as int,
    }
}

/// Whether `f` reads a packet of an ether type that `etherparse` does not read further.
pub open spec fn is_unread_ether_type(f: Framing) -> bool {
    f matches Framing::EtherType { ether_type, .. } && !is_decoded_ether_type(ether_type)
}

/// The headers of a frame read as `f`, or `None` when they do not decode.
pub open spec fn frame_headers(f: Framing, data: Seq<u8>) -> Option<Headers> {
    match f {
        Framing::Ethernet => ethernet_headers(data),
        Framing::Ip { start } => ip_headers(data.skip(start as int)),
        Framing::EtherType { ether_type, start } => ether_type_headers(ether_type, data.skip(start as int)),
    }
}

/// The summary of a captured frame of the given link type, or `None` when the link
/// type is not supported, the frame is too short for its link header, or its headers
/// do not decode.
pub open spec fn decoded(link_type: i32, data: Seq<u8>) -> Option<SummaryView> {
    match framing_of(link_type, data) {
        Some(f) => match frame_headers(f, data) {
            Some(h) => Some(summary_of(h)),
            None => None,
        },
        None => None,
    }
}

#[verifier::external_type_specification]
#[verifier::external_body]
pub struct ExPacketHeaders<'a>(PacketHeaders<'a>);

#[verifier::external_type_specification]
#[verifier::external_body]
pub struct ExSliceError(SliceError);

#[verifier::external_type_specification]
#[verifier::external_body]
pub struct ExArpPacket(ArpPacket);

#[verifier::external_type_specification]
#[verifier::external_body]
pub struct ExIcmpv4Header(Icmpv4Header);

#[verifier::external_type_specification]
#[verifier::external_body]
pub struct ExIcmpv6Header(Icmpv6Header);

/// The slice that `etherparse` decoded, and the call that decoded it.
enum Source<'a> {
    Ethernet(&'a [u8]),
    Ip(&'a [u8]),
    EtherType(u16, &'a [u8]),
}

/// Headers that `etherparse` decoded, with where they came from. Only the three
/// parsing wrappers below build one, from the result of their call.
struct Parsed<'a> {
    headers: PacketHeaders<'a>,
    source: Source<'a>,
}

/// The plain values of decoded headers: the name of the call that decoded them,
/// applied to its arguments.
spec fn model(p: &Parsed) -> Headers {
    match p.source {
        Source::Ethernet(d) => ethernet_headers(d@).unwrap(),
        Source::Ip(d) => ip_headers(d@).unwrap(),
        Source::EtherType(t, d) => ether_type_headers(t, d@).unwrap(),
    }
}

/// `PacketHeaders::from_ethernet_slice`: decodes a frame that starts with an
/// Ethernet II header. It fails on fewer than the 14 bytes of that header; when it
/// succeeds the link header is those 14 bytes, and for an ether type that it does not
/// read further nothing else is decoded and the rest of the frame is payload.
#[verifier::external_body]
fn parse_ethernet(data: &[u8]) -> (r: Result<Parsed<'_>, SliceError>)
    ensures
        r is Ok <==> ethernet_headers(data@) is Some,
        r matches Ok(p) ==> p.source == Source::Ethernet(data),
        data@.len() < 14 ==> r is Err,
        r is Ok ==> has_ethernet_header(ethernet_headers(data@), data@),
        data@.len() >= 14 && !is_decoded_ether_type(be_u16(data@[12], data@[13])) ==> r is Ok,
        r is Ok && !is_decoded_ether_type(be_u16(data@[12], data@[13])) ==> decodes_link_only(
            ethernet_headers(data@),
            data@.len() - 14,
        ),
{
    PacketHeaders::from_ethernet_slice(data).map(|headers| Parsed { headers, source: Source::Ethernet(data) })
}

/// `PacketHeaders::from_ip_slice`: decodes a packet that starts with an IP header.
/// It fails on an empty slice.
#[verifier::external_body]
fn parse_ip(data: &[u8]) -> (r: Result<Parsed<'_>, SliceError>)
    ensures
        r is Ok <==> ip_headers(data@) is Some,
        r matches Ok(p) ==> p.source == Source::Ip(data),
        data@.len() == 0 ==> r is Err,
{
    PacketHeaders::from_ip_slice(data).map(|headers| Parsed { headers, source: Source::Ip(data) })
}

/// `PacketHeaders::from_ether_type`: decodes a packet of the given ether type. An
/// ether type that it does not read further never fails: there is no link, network
/// or transport header, and the whole slice is payload.
#[verifier::external_body]
fn parse_ether_type(ether_type: u16, data: &[u8]) -> (r: Result<Parsed<'_>, SliceError>)
    ensures
        r is Ok <==> ether_type_headers(ether_type, data@) is Some,
        r matches Ok(p) ==> p.source == Source::EtherType(ether_type, data),
        !is_decoded_ether_type(ether_type) ==> r is Ok,
        r is Ok && !is_decoded_ether_type(ether_type) ==> decodes_payload_only(
            ether_type_headers(ether_type, data@),
            data@.len() as int,
        ),
{
    PacketHeaders::from_ether_type(EtherType(ether_type), data).map(
        |headers| Parsed { headers, source: Source::EtherType(ether_type, data) },
    )
}

/// The Ethernet II header of decoded headers, if that is their link header
/// (field `link`): the `link` of the headers named for the call that decoded them.
#[verifier::external_body]
fn link_part(p: &Parsed) -> (r: Option<EthernetInfo>)
    ensures
        r == model(p).link,
{
    match &p.headers.link {
        Some(LinkHeader::Ethernet2(e)) => Some(
            EthernetInfo { source: e.source, destination: e.destination, ether_type: e.ether_type.0 },
        ),
        Some(LinkHeader::LinuxSll(_)) => None,
        None => None,
    }
}

/// The network layer of decoded headers, without what an ARP packet holds.
enum NetPart {
    Ipv4 { source: [u8; 4], destination: [u8; 4], protocol: u8 },
    Ipv6 { source: [u8; 16], destination: [u8; 16], next_header: u8 },
    Arp,
}

spec fn net_part_of(net: Option<NetInfo>) -> Option<NetPart> {
    match net {
        Some(NetInfo::Ipv4 { source, destination, protocol }) => Some(NetPart::Ipv4 { source, destination, protocol }),
        Some(NetInfo::Ipv6 { source, destination, next_header }) => Some(
            NetPart::Ipv6 { source, destination, next_header },
        ),
        Some(NetInfo::Arp { .. }) => Some(NetPart::Arp),
        None => None,
    }
}

/// The network layer of decoded headers (field `net`), one arm per variant of
/// `NetHeaders`: the `net` of the headers named for the call that decoded them.
#[verifier::external_body]
fn net_part(p: &Parsed) -> (r: Option<NetPart>)
    ensures
        r == net_part_of(model(p).net),
{
    match &p.headers.net {
        Some(NetHeaders::Ipv4(ip, _)) => Some(
            NetPart::Ipv4 { source: ip.source, destination: ip.destination, protocol: ip.protocol.0 },
        ),
        Some(NetHeaders::Ipv6(ip, _)) => Some(
            NetPart::Ipv6 { source: ip.source, destination: ip.destination, next_header: ip.next_header.0 },
        ),
        Some(NetHeaders::Arp(_)) => Some(NetPart::Arp),
        None => None,
    }
}

spec fn arp_of(net: Option<NetInfo>) -> Option<(u16, Option<ArpEthIpv4>)> {
    match net {
        Some(NetInfo::Arp { operation, eth_ipv4 }) => Some((operation, eth_ipv4)),
        _ => None,
    }
}

/// For an ARP packet, its operation code and `ArpPacket::try_eth_ipv4`, its
/// Ethernet/IPv4 view when it has one: what the headers named for the call that
/// decoded them hold for ARP.
#[verifier::external_body]
fn arp_part(p: &Parsed) -> (r: Option<(u16, Option<ArpEthIpv4>)>)
    ensures
        r == arp_of(model(p).net),
{
    match &p.headers.net {
        Some(NetHeaders::Arp(arp)) => Some((arp.operation.0, arp.try_eth_ipv4().ok().map(|e| ArpEthIpv4 {
            operation: e.operation.0, sender_mac: e.sender_mac, sender_ipv4: e.sender_ipv4, target_ipv4: e.target_ipv4,
        }))),
        Some(NetHeaders::Ipv4(..)) | Some(NetHeaders::Ipv6(..)) | None => None,
    }
}

/// The transport layer of decoded headers, without what an ICMP header holds.
enum TransportPart {
    Tcp(TcpInfo),
    Udp { source_port: u16, destination_port: u16 },
    V4,
    V6,
    Igmp,
}

spec fn transport_part_of(transport: Option<TransportInfo>) -> Option<TransportPart> {
    match transport {
        Some(TransportInfo::Tcp(t)) => Some(TransportPart::Tcp(t)),
        Some(TransportInfo::Udp { source_port, destination_port }) => Some(
            TransportPart::Udp { source_port, destination_port },
        ),
        Some(TransportInfo::Icmpv4(_)) => Some(TransportPart::V4),
        Some(TransportInfo::Icmpv6 { .. }) => Some(TransportPart::V6),
        Some(TransportInfo::Igmp) => Some(TransportPart::Igmp),
        None => None,
    }
}

/// The transport layer of decoded headers (field `transport`), one arm per variant
/// of `TransportHeader`: the `transport` of the headers named for the call that
/// decoded them.
#[verifier::external_body]
fn transport_part(p: &Parsed) -> (r: Option<TransportPart>)
    ensures
        r == transport_part_of(model(p).transport),
{
    match &p.headers.transport {
        Some(TransportHeader::Tcp(t)) => Some(TransportPart::Tcp(TcpInfo {
            source_port: t.source_port, destination_port: t.destination_port,
            syn: t.syn, fin: t.fin, rst: t.rst, psh: t.psh, ack: t.ack,
        })),
        Some(TransportHeader::Udp(u)) => Some(
            TransportPart::Udp { source_port: u.source_port, destination_port: u.destination_port },
        ),
        Some(TransportHeader::Icmpv4(_)) => Some(TransportPart::V4),
        Some(TransportHeader::Icmpv6(_)) => Some(TransportPart::V6),
        Some(TransportHeader::Igmp(_)) => Some(TransportPart::Igmp),
        None => None,
    }
}

spec fn v4_of(transport: Option<TransportInfo>) -> Option<Icmpv4Info> {
    match transport {
        Some(TransportInfo::Icmpv4(i)) => Some(i),
        _ => None,
    }
}

/// For an ICMPv4 header, its type (field `icmp_type`); for a type without its own
/// arm, the first two bytes of `Icmpv4Header::to_bytes`: what the headers named for
/// the call that decoded them hold for ICMPv4.
#[verifier::external_body]
fn icmpv4_part(p: &Parsed) -> (r: Option<Icmpv4Info>)
    ensures
        r == v4_of(model(p).transport),
{
    match &p.headers.transport {
        Some(TransportHeader::Icmpv4(i)) => Some(match &i.icmp_type {
            Icmpv4Type::EchoRequest(e) => Icmpv4Info::EchoRequest { id: e.id, seq: e.seq },
            Icmpv4Type::EchoReply(e) => Icmpv4Info::EchoReply { id: e.id, seq: e.seq },
            Icmpv4Type::DestinationUnreachable(_) => Icmpv4Info::DestinationUnreachable,
            Icmpv4Type::TimeExceeded(_) => Icmpv4Info::TimeExceeded,
            Icmpv4Type::Unknown { .. } | Icmpv4Type::Redirect(_) | Icmpv4Type::ParameterProblem(_)
            | Icmpv4Type::TimestampRequest(_) | Icmpv4Type::TimestampReply(_) => Icmpv4Info::Other {
                type_u8: i.to_bytes()[0], code_u8: i.to_bytes()[1],
            },
        }),
        _ => None,
    }
}

spec fn v6_of(transport: Option<TransportInfo>) -> Option<(u8, u8)> {
    match transport {
        Some(TransportInfo::Icmpv6 { type_u8, code_u8 }) => Some((type_u8, code_u8)),
        _ => None,
    }
}

/// For an ICMPv6 header, `Icmpv6Type::type_u8` and `Icmpv6Type::code_u8`: what the
/// headers named for the call that decoded them hold for ICMPv6.
#[verifier::external_body]
fn icmpv6_part(p: &Parsed) -> (r: Option<(u8, u8)>)
    ensures
        r == v6_of(model(p).transport),
{
    match &p.headers.transport {
        Some(TransportHeader::Icmpv6(i)) => Some((i.icmp_type.type_u8(), i.icmp_type.code_u8())),
        _ => None,
    }
}

/// `PayloadSlice::slice` of decoded headers, by its length: the `payload_len` of the
/// headers named for the call that decoded them.
#[verifier::external_body]
fn payload_len(p: &Parsed) -> (r: usize)
    ensures
        r == model(p).payload_len,
{
    p.headers.payload.slice().len()
}

/// The plain values of decoded headers that a summary reads.
fn headers_of(p: &Parsed) -> (h: Headers)
    ensures
        h == model(p),
{
    let link = link_part(p);
    let net = match net_part(p) {
        Some(NetPart::Ipv4 { source, destination, protocol }) => Some(NetInfo::Ipv4 { source, destination, protocol }),
        Some(NetPart::Ipv6 { source, destination, next_header }) => Some(
            NetInfo::Ipv6 { source, destination, next_header },
        ),
        Some(NetPart::Arp) => match arp_part(p) {
            Some((operation, eth_ipv4)) => Some(NetInfo::Arp { operation, eth_ipv4 }),
            None => None,
        },
        None => None,
    };
    let transport = match transport_part(p) {
        Some(TransportPart::Tcp(t)) => Some(TransportInfo::Tcp(t)),
        Some(TransportPart::Udp { source_port, destination_port }) => Some(
            TransportInfo::Udp { source_port, destination_port },
        ),
        Some(TransportPart::V4) => match icmpv4_part(p) {
            Some(i) => Some(TransportInfo::Icmpv4(i)),
            None => None,
        },
        Some(TransportPart::V6) => match icmpv6_part(p) {
            Some((type_u8, code_u8)) => Some(TransportInfo::Icmpv6 { type_u8, code_u8 }),
            None => None,
        },
        Some(TransportPart::Igmp) => Some(TransportInfo::Igmp),
        None => None,
    };
    Headers { link, net, transport, payload_len: payload_len(p) }
}

/// How a frame of the given link type is read (see [`framing_of`]).
pub fn framing(link_type: i32, data: &[u8]) -> (r: Option<Framing>)
    ensures
        r == framing_of(link_type, data@),
{
    if link_type == linktype::ETHERNET {
        Some(Framing::Ethernet)
    } else if link_type == linktype::NULL || link_type == linktype::LOOP {
        if data.len() >= 4 { Some(Framing::Ip { start: 4 }) } else { None }
    } else if link_type == linktype::RAW || link_type == linktype::IPV4 || link_type == linktype::IPV6 {
        Some(Framing::Ip { start: 0 })
    } else if link_type == linktype::LINUX_SLL {
        if data.len() >= 16 {
            Some(Framing::EtherType { ether_type: big_endian_u16(data[14], data[15]), start: 16 })
        } else {
            None
        }
    } else if link_type == linktype::LINUX_SLL2 {
        if data.len() >= 20 {
            Some(Framing::EtherType { ether_type: big_endian_u16(data[0], data[1]), start: 20 })
        } else {
            None
        }
    } else {
        None
    }
}

fn big_endian_u16(high: u8, low: u8) -> (r: u16)
    ensures
        r == be_u16(high, low),
{
    (high as u16) * 256 + (low as u16)
}

/// Decodes the headers of a frame as `f` says.
fn parse_frame<'a>(f: Framing, data: &'a [u8]) -> (r: Result<Parsed<'a>, SliceError>)
    requires
        f matches Framing::Ip { start } ==> start <= data@.len(),
        f matches Framing::EtherType { start, .. } ==> start <= data@.len(),
    ensures
        r is Ok <==> frame_headers(f, data@) is Some,
        r matches Ok(p) ==> frame_headers(f, data@) == Some(model(&p)),
        f == Framing::Ethernet && data@.len() < 14 ==> r is Err,
        f matches Framing::Ip { start } && data@.len() == start ==> r is Err,
        f == Framing::Ethernet && r is Ok ==> has_ethernet_header(frame_headers(f, data@), data@),
        f == Framing::Ethernet && data@.len() >= 14 && !is_decoded_ether_type(be_u16(data@[12], data@[13]))
            ==> (r is Ok && decodes_link_only(frame_headers(f, data@), data@.len() - 14)),
        is_unread_ether_type(f) ==> (r is Ok && decodes_payload_only(
            frame_headers(f, data@),
            data@.len() - start_of(f),
        )),
{
    match f {
        Framing::Ethernet => parse_ethernet(data),
        Framing::Ip { start } => {
            let rest = vstd::slice::slice_subrange(data, start, data.len());
            assert(rest@ =~= data@.skip(start as int));
            parse_ip(rest)
        },
        Framing::EtherType { ether_type, start } => {
            let rest = vstd::slice::slice_subrange(data, start, data.len());
            assert(rest@ =~= data@.skip(start as int));
            parse_ether_type(ether_type, rest)
        },
    }
}

/// Decodes a captured frame. Returns `None` when the link type is not supported or
/// the packet cannot be parsed, and otherwise the summary of the headers that
/// `etherparse` decodes from the frame.
pub fn decode(link_type: i32, data: &[u8]) -> (r: Option<Summary>)
    ensures
        r is Some <==> decoded(link_type, data@) is Some,
        r matches Some(s) ==> decoded(link_type, data@) == Some(s@),
        link_type == linktype::ETHERNET && data@.len() < 14 ==> r is None,
        framing_of(link_type, data@) matches Some(Framing::Ip { start }) && data@.len() == start ==> r is None,
        link_type == linktype::ETHERNET && r is Some ==> has_ethernet_header(
            frame_headers(Framing::Ethernet, data@),
            data@,
        ),
        link_type == linktype::ETHERNET && data@.len() >= 14 && !is_decoded_ether_type(be_u16(data@[12], data@[13]))
            ==> (r is Some && decodes_link_only(frame_headers(Framing::Ethernet, data@), data@.len() - 14)),
        framing_of(link_type, data@) is Some && is_unread_ether_type(framing_of(link_type, data@).unwrap())
            ==> (r is Some && decodes_payload_only(
            frame_headers(framing_of(link_type, data@).unwrap(), data@),
            data@.len() - start_of(framing_of(link_type, data@).unwrap()),
        )),
{
    let f = match framing(link_type, data) {
        Some(f) => f,
        None => return None,
    };
    match parse_frame(f, data) {
        Ok(p) => {
            let h = headers_of(&p);
            Some(summarize(&h))
        },
        Err(_) => None,
    }
}

} // verus!
