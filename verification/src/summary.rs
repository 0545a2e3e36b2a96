//! One-line summaries of decoded frames: addresses, protocol, details and family.

use vstd::prelude::*;
use crate::headers::{ArpEthIpv4, EthernetInfo, Headers, Icmpv4Info, NetInfo, TcpInfo, TransportInfo};
use crate::text::{
    dec_u16, dec_u8, dec_usize, hex_u16, ipv4_string, ipv4_text, ipv6_string, ipv6_text, mac, mac_text,
    push_dec_u16, push_dec_u8, push_dec_usize, push_hex_u16, service, service_of, with_port, with_port_text,
};

verus! {

/// Protocol family, used by the display to pick a color.
#[derive(Debug, Clone, Copy, PartialEq, Eq, Structural)]
pub enum Kind {
    Tcp,
    Udp,
    Icmp,
    Arp,
    Other,
}

/// The color in which a terminal shows a summary line.
#[derive(Debug, Clone, Copy, PartialEq, Eq)]
pub enum LineColor {
    Cyan,
    Yellow,
    Red,
    Magenta,
    White,
}

/// The color of each protocol family.
pub open spec fn color_of(kind: Kind) -> LineColor {
    match kind {
        Kind::Tcp => LineColor::Cyan,
        Kind::Udp => LineColor::Yellow,
        Kind::Icmp => LineColor::Red,
        Kind::Arp => LineColor::Magenta,
        Kind::Other => LineColor::White,
    }
}

/// The color in which a summary of the given protocol family is shown.
pub fn kind_color(kind: Kind) -> (c: LineColor)
    ensures
        c == color_of(kind),
{
    match kind {
        Kind::Tcp => LineColor::Cyan,
        Kind::Udp => LineColor::Yellow,
        Kind::Icmp => LineColor::Red,
        Kind::Arp => LineColor::Magenta,
        Kind::Other => LineColor::White,
    }
}

/// One-line description of a packet.
#[derive(Debug, Clone, PartialEq, Eq)]
pub struct Summary {
    pub source: String,
    pub destination: String,
    pub protocol: String,
    pub info: String,
    pub kind: Kind,
}

/// What a summary says, as character sequences.
pub ghost struct SummaryView {
    pub source: Seq<char>,
    pub destination: Seq<char>,
    pub protocol: Seq<char>,
    pub info: Seq<char>,
    pub kind: Kind,
}

impl View for Summary {
    type V = SummaryView;

    open spec fn view(&self) -> SummaryView {
        SummaryView {
            source: self.source@,
            destination: self.destination@,
            protocol: self.protocol@,
            info: self.info@,
            kind: self.kind,
        }
    }
}

/// Source and destination before ports are added: the IP addresses, else the MAC
/// addresses of an Ethernet header, else `?`.
pub open spec fn base_addresses(h: Headers) -> (Seq<char>, Seq<char>) {
    match h.net {
        Some(NetInfo::Ipv4 { source, destination, .. }) => (ipv4_text(source@), ipv4_text(destination@)),
        Some(NetInfo::Ipv6 { source, destination, .. }) => (ipv6_text(source@), ipv6_text(destination@)),
        _ => match h.link {
            Some(eth) => (mac_text(eth.source@), mac_text(eth.destination@)),
            None => ("?"@, "?"@),
        },
    }
}

pub open spec fn is_ipv6(h: Headers) -> bool {
    h.net matches Some(NetInfo::Ipv6 { .. })
}

/// Names joined by `", "`.
pub open spec fn join_names(names: Seq<Seq<char>>) -> Seq<char>
    decreases names.len(),
{
    if names.len() == 0 {
        seq![]
    } else if names.len() == 1 {
        names[0]
    } else {
        join_names(names.drop_last()) + ", "@ + names.last()
    }
}

pub open spec fn flag_if(set: bool, name: Seq<char>) -> Seq<Seq<char>> {
    if set { seq![name] } else { seq![] }
}

/// The TCP flags that are set, in the order SYN, FIN, RST, PSH, ACK.
pub open spec fn tcp_flag_names(t: TcpInfo) -> Seq<Seq<char>> {
    flag_if(t.syn, "SYN"@) + flag_if(t.fin, "FIN"@) + flag_if(t.rst, "RST"@) + flag_if(t.psh, "PSH"@)
        + flag_if(t.ack, "ACK"@)
}

/// `info` preceded by the name of the well-known service on either port, if any.
pub open spec fn with_service(source_port: u16, destination_port: u16, info: Seq<char>) -> Seq<char> {
    match service_of(source_port, destination_port) {
        Some(name) => name@ + " "@ + info,
        None => info,
    }
}

pub open spec fn tcp_info_text(t: TcpInfo, payload_len: usize) -> Seq<char> {
    with_service(
        t.source_port,
        t.destination_port,
        "["@ + join_names(tcp_flag_names(t)) + "] len="@ + dec_usize(payload_len),
    )
}

pub open spec fn udp_info_text(source_port: u16, destination_port: u16, payload_len: usize) -> Seq<char> {
    with_service(source_port, destination_port, "len="@ + dec_usize(payload_len))
}

pub open spec fn icmpv4_info_text(i: Icmpv4Info) -> Seq<char> {
    match i {
        Icmpv4Info::EchoRequest { id, seq } => "echo request id="@ + dec_u16(id) + " seq="@
            + dec_u16(seq),
        Icmpv4Info::EchoReply { id, seq } => "echo reply id="@ + dec_u16(id) + " seq="@
            + dec_u16(seq),
        Icmpv4Info::DestinationUnreachable => "destination unreachable"@,
        Icmpv4Info::TimeExceeded => "time exceeded"@,
        Icmpv4Info::Other { type_u8, code_u8 } => "type="@ + dec_u8(type_u8) + " code="@
            + dec_u8(code_u8),
    }
}

pub open spec fn icmpv6_info_text(type_u8: u8, code_u8: u8) -> Seq<char> {
    if type_u8 == 128 {
        "echo request"@
    } else if type_u8 == 129 {
        "echo reply"@
    } else if type_u8 == 133 {
        "router solicitation"@
    } else if type_u8 == 134 {
        "router advertisement"@
    } else if type_u8 == 135 {
        "neighbor solicitation"@
    } else if type_u8 == 136 {
        "neighbor advertisement"@
    } else {
        "type="@ + dec_u8(type_u8) + " code="@ + dec_u8(code_u8)
    }
}

/// The summary of an ARP packet whose link addresses are `src` and `dst`.
pub open spec fn arp_summary(src: Seq<char>, dst: Seq<char>, operation: u16, eth_ipv4: Option<ArpEthIpv4>) -> SummaryView {
    match eth_ipv4 {
        Some(p) => if p.operation == 1 {
            let (s, d) = (ipv4_text(p.sender_ipv4@), ipv4_text(p.target_ipv4@));
            SummaryView { source: s, destination: d, protocol: "ARP"@,
                info: "who has "@ + d + "? tell "@ + s, kind: Kind::Arp }
        } else if p.operation == 2 {
            let (s, d) = (ipv4_text(p.sender_ipv4@), ipv4_text(p.target_ipv4@));
            SummaryView { source: s, destination: d, protocol: "ARP"@,
                info: s + " is at "@ + mac_text(p.sender_mac@), kind: Kind::Arp }
        } else {
            SummaryView { source: src, destination: dst, protocol: "ARP"@,
                info: "operation "@ + dec_u16(operation), kind: Kind::Arp }
        },
        None => SummaryView { source: src, destination: dst, protocol: "ARP"@,
            info: "operation "@ + dec_u16(operation), kind: Kind::Arp },
    }
}

/// `0x` and the ether type in four hex digits, or `?` without an Ethernet header.
pub open spec fn ether_type_text(link: Option<EthernetInfo>) -> Seq<char> {
    match link {
        Some(eth) => "0x"@ + hex_u16(eth.ether_type, 4),
        None => "?"@,
    }
}

/// The summary of a frame with no transport header.
pub open spec fn network_summary(h: Headers, src: Seq<char>, dst: Seq<char>) -> SummaryView {
    match h.net {
        Some(NetInfo::Arp { operation, eth_ipv4 }) => arp_summary(src, dst, operation, eth_ipv4),
        Some(NetInfo::Ipv4 { protocol, .. }) => SummaryView { source: src, destination: dst,
            protocol: "IPv4"@, info: "protocol "@ + dec_u8(protocol), kind: Kind::Other },
        Some(NetInfo::Ipv6 { next_header, .. }) => SummaryView { source: src, destination: dst,
            protocol: "IPv6"@, info: "next header "@ + dec_u8(next_header), kind: Kind::Other },
        None => SummaryView { source: src, destination: dst,
            protocol: "ETH "@ + ether_type_text(h.link), info: "len="@ + dec_usize(h.payload_len),
            kind: Kind::Other },
    }
}

/// The summary of a frame's headers.
pub open spec fn summary_of(h: Headers) -> SummaryView {
    let (src, dst) = base_addresses(h);
    let v6 = is_ipv6(h);
    match h.transport {
        Some(TransportInfo::Tcp(t)) => SummaryView {
            source: with_port_text(src, t.source_port, v6),
            destination: with_port_text(dst, t.destination_port, v6),
            protocol: "TCP"@,
            info: tcp_info_text(t, h.payload_len),
            kind: Kind::Tcp,
        },
        Some(TransportInfo::Udp { source_port, destination_port }) => SummaryView {
            source: with_port_text(src, source_port, v6),
            destination: with_port_text(dst, destination_port, v6),
            protocol: "UDP"@,
            info: udp_info_text(source_port, destination_port, h.payload_len),
            kind: Kind::Udp,
        },
        Some(TransportInfo::Icmpv4(i)) => SummaryView { source: src, destination: dst,
            protocol: "ICMP"@, info: icmpv4_info_text(i), kind: Kind::Icmp },
        Some(TransportInfo::Icmpv6 { type_u8, code_u8 }) => SummaryView { source: src, destination: dst,
            protocol: "ICMPv6"@, info: icmpv6_info_text(type_u8, code_u8), kind: Kind::Icmp },
        Some(TransportInfo::Igmp) | None => network_summary(h, src, dst),
    }
}


proof fn lemma_join_names_push(names: Seq<Seq<char>>, name: Seq<char>)
    ensures
        join_names(names.push(name)) == if names.len() == 0 {
            name
        } else {
            join_names(names) + ", "@ + name
        },
{
    assert(names.push(name).drop_last() =~= names);
}

/// Appends `name`, after `", "` unless it is the first of a list.
fn push_list_item(s: &mut String, first: bool, name: &str)
    ensures
        final(s)@ == if first { old(s)@ + name@ } else { old(s)@ + ", "@ + name@ },
{
    if !first {
        s.append(", ");
    }
    s.append(name);
}

/// The TCP flags that are set, joined by `", "`.
fn tcp_flags(t: &TcpInfo) -> (r: String)
    ensures
        r@ == join_names(tcp_flag_names(*t)),
{
    let mut s = String::new();
    let ghost mut names: Seq<Seq<char>> = seq![];
    let mut first = true;
    if t.syn {
        proof { lemma_join_names_push(names, "SYN"@); }
        push_list_item(&mut s, first, "SYN");
        proof { names = names.push("SYN"@); }
        first = false;
    }
    assert(s@ == join_names(names) && first == (names.len() == 0));
    if t.fin {
        proof { lemma_join_names_push(names, "FIN"@); }
        push_list_item(&mut s, first, "FIN");
        proof { names = names.push("FIN"@); }
        first = false;
    }
    assert(s@ == join_names(names) && first == (names.len() == 0));
    if t.rst {
        proof { lemma_join_names_push(names, "RST"@); }
        push_list_item(&mut s, first, "RST");
        proof { names = names.push("RST"@); }
        first = false;
    }
    assert(s@ == join_names(names) && first == (names.len() == 0));
    if t.psh {
        proof { lemma_join_names_push(names, "PSH"@); }
        push_list_item(&mut s, first, "PSH");
        proof { names = names.push("PSH"@); }
        first = false;
    }
    assert(s@ == join_names(names) && first == (names.len() == 0));
    if t.ack {
        proof { lemma_join_names_push(names, "ACK"@); }
        push_list_item(&mut s, first, "ACK");
        proof { names = names.push("ACK"@); }
    }
    assert(names =~= tcp_flag_names(*t));
    s
}

/// `info`, preceded by the service name on either port when there is one.
fn prefix_service(source_port: u16, destination_port: u16, info: String) -> (r: String)
    ensures
        r@ == with_service(source_port, destination_port, info@),
{
    match service(source_port, destination_port) {
        Some(name) => {
            let mut s = String::from_str(name);
            s.append(" ");
            s.append(info.as_str());
            s
        },
        None => info,
    }
}

fn tcp_info(t: &TcpInfo, payload_len: usize) -> (r: String)
    ensures
        r@ == tcp_info_text(*t, payload_len),
{
    let mut s = String::from_str("[");
    let flags = tcp_flags(t);
    s.append(flags.as_str());
    s.append("] len=");
    push_dec_usize(&mut s, payload_len);
    prefix_service(t.source_port, t.destination_port, s)
}

fn udp_info(source_port: u16, destination_port: u16, payload_len: usize) -> (r: String)
    ensures
        r@ == udp_info_text(source_port, destination_port, payload_len),
{
    let mut s = String::from_str("len=");
    push_dec_usize(&mut s, payload_len);
    prefix_service(source_port, destination_port, s)
}

/// `label`, the identifier, `" seq="`, the sequence number.
fn echo_text(label: &str, id: u16, seq: u16) -> (r: String)
    ensures
        r@ == label@ + dec_u16(id) + " seq="@ + dec_u16(seq),
{
    let mut s = String::from_str(label);
    push_dec_u16(&mut s, id);
    s.append(" seq=");
    push_dec_u16(&mut s, seq);
    s
}

/// `"type="`, the type, `" code="`, the code.
fn type_code_text(type_u8: u8, code_u8: u8) -> (r: String)
    ensures
        r@ == "type="@ + dec_u8(type_u8) + " code="@ + dec_u8(code_u8),
{
    let mut s = String::from_str("type=");
    push_dec_u8(&mut s, type_u8);
    s.append(" code=");
    push_dec_u8(&mut s, code_u8);
    s
}

fn icmpv4_info(i: &Icmpv4Info) -> (r: String)
    ensures
        r@ == icmpv4_info_text(*i),
{
    match i {
        Icmpv4Info::EchoRequest { id, seq } => echo_text("echo request id=", *id, *seq),
        Icmpv4Info::EchoReply { id, seq } => echo_text("echo reply id=", *id, *seq),
        Icmpv4Info::DestinationUnreachable => String::from_str("destination unreachable"),
        Icmpv4Info::TimeExceeded => String::from_str("time exceeded"),
        Icmpv4Info::Other { type_u8, code_u8 } => type_code_text(*type_u8, *code_u8),
    }
}

fn icmpv6_info(type_u8: u8, code_u8: u8) -> (r: String)
    ensures
        r@ == icmpv6_info_text(type_u8, code_u8),
{
    match type_u8 {
        128 => String::from_str("echo request"),
        129 => String::from_str("echo reply"),
        133 => String::from_str("router solicitation"),
        134 => String::from_str("router advertisement"),
        135 => String::from_str("neighbor solicitation"),
        136 => String::from_str("neighbor advertisement"),
        t => type_code_text(t, code_u8),
    }
}

fn base_address_strings(h: &Headers) -> (r: (String, String))
    ensures
        (r.0@, r.1@) == base_addresses(*h),
{
    match &h.net {
        Some(NetInfo::Ipv4 { source, destination, .. }) => (ipv4_string(source), ipv4_string(destination)),
        Some(NetInfo::Ipv6 { source, destination, .. }) => (ipv6_string(*source), ipv6_string(*destination)),
        _ => match &h.link {
            Some(eth) => (mac(&eth.source), mac(&eth.destination)),
            None => (String::from_str("?"), String::from_str("?")),
        },
    }
}

fn operation_text(operation: u16) -> (r: String)
    ensures
        r@ == "operation "@ + dec_u16(operation),
{
    let mut s = String::from_str("operation ");
    push_dec_u16(&mut s, operation);
    s
}

fn arp_summarize(src: String, dst: String, operation: u16, eth_ipv4: &Option<ArpEthIpv4>) -> (r: Summary)
    ensures
        r@ == arp_summary(src@, dst@, operation, *eth_ipv4),
{
    match eth_ipv4 {
        Some(p) if p.operation == 1 => {
            let source = ipv4_string(&p.sender_ipv4);
            let destination = ipv4_string(&p.target_ipv4);
            let mut info = String::from_str("who has ");
            info.append(destination.as_str());
            info.append("? tell ");
            info.append(source.as_str());
            Summary { source, destination, protocol: String::from_str("ARP"), info, kind: Kind::Arp }
        },
        Some(p) if p.operation == 2 => {
            let source = ipv4_string(&p.sender_ipv4);
            let destination = ipv4_string(&p.target_ipv4);
            let mut info = source.clone();
            info.append(" is at ");
            let m = mac(&p.sender_mac);
            info.append(m.as_str());
            Summary { source, destination, protocol: String::from_str("ARP"), info, kind: Kind::Arp }
        },
        _ => Summary {
            source: src,
            destination: dst,
            protocol: String::from_str("ARP"),
            info: operation_text(operation),
            kind: Kind::Arp,
        },
    }
}

fn network_summarize(h: &Headers, src: String, dst: String) -> (r: Summary)
    ensures
        r@ == network_summary(*h, src@, dst@),
{
    match &h.net {
        Some(NetInfo::Arp { operation, eth_ipv4 }) => arp_summarize(src, dst, *operation, eth_ipv4),
        Some(NetInfo::Ipv4 { protocol, .. }) => {
            let mut info = String::from_str("protocol ");
            push_dec_u8(&mut info, *protocol);
            Summary { source: src, destination: dst, protocol: String::from_str("IPv4"), info, kind: Kind::Other }
        },
        Some(NetInfo::Ipv6 { next_header, .. }) => {
            let mut info = String::from_str("next header ");
            push_dec_u8(&mut info, *next_header);
            Summary { source: src, destination: dst, protocol: String::from_str("IPv6"), info, kind: Kind::Other }
        },
        None => {
            let mut protocol = String::from_str("ETH ");
            match &h.link {
                Some(eth) => {
                    protocol.append("0x");
                    push_hex_u16(&mut protocol, eth.ether_type, 4);
                },
                None => protocol.append("?"),
            }
            assert(protocol@ =~= "ETH "@ + ether_type_text(h.link));
            let mut info = String::from_str("len=");
            push_dec_usize(&mut info, h.payload_len);
            Summary { source: src, destination: dst, protocol, info, kind: Kind::Other }
        },
    }
}

/// Summarizes the headers of a frame: addresses (with ports for TCP and UDP),
/// protocol name, protocol details and protocol family.
pub fn summarize(h: &Headers) -> (s: Summary)
    ensures
        s@ == summary_of(*h),
{
    let (src, dst) = base_address_strings(h);
    let v6 = match &h.net {
        Some(NetInfo::Ipv6 { .. }) => true,
        _ => false,
    };
    match &h.transport {
        Some(TransportInfo::Tcp(t)) => Summary {
            source: with_port(src.as_str(), t.source_port, v6),
            destination: with_port(dst.as_str(), t.destination_port, v6),
            protocol: String::from_str("TCP"),
            info: tcp_info(t, h.payload_len),
            kind: Kind::Tcp,
        },
        Some(TransportInfo::Udp { source_port, destination_port }) => Summary {
            source: with_port(src.as_str(), *source_port, v6),
            destination: with_port(dst.as_str(), *destination_port, v6),
            protocol: String::from_str("UDP"),
            info: udp_info(*source_port, *destination_port, h.payload_len),
            kind: Kind::Udp,
        },
        Some(TransportInfo::Icmpv4(i)) => Summary {
            source: src,
            destination: dst,
            protocol: String::from_str("ICMP"),
            info: icmpv4_info(i),
            kind: Kind::Icmp,
        },
        Some(TransportInfo::Icmpv6 { type_u8, code_u8 }) => Summary {
            source: src,
            destination: dst,
            protocol: String::from_str("ICMPv6"),
            info: icmpv6_info(*type_u8, *code_u8),
            kind: Kind::Icmp,
        },
        Some(TransportInfo::Igmp) | None => network_summarize(h, src, dst),
    }
}

} // verus!
