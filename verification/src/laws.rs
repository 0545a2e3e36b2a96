//! Properties of the library as a whole, stated over the specifications that the
//! functions' contracts use, and proved.

use vstd::prelude::*;
use crate::capture::{action_after, should_read_spec, CaptureAction, CaptureEvent};
use crate::decode::{be_u16, decoded, decodes_payload_only, framing_of, has_ethernet_header, is_link_only};
use crate::headers::{Headers, NetInfo, TcpInfo, TransportInfo};
use crate::hexdump::{ascii_char, ascii_text, dump_line, hex_dump_text, lemma_hex_join_len, more_bytes_line, pad_right};
use crate::linktype;
use crate::summary::{flag_if, join_names, summary_of, tcp_flag_names, Kind};
use crate::text::{dec_digit, dec_text, dec_u16, dec_u8, dec_usize, ipv4_text, ipv6_text, hex_digit, hex_join, hex_text, hex_u16, mac_text, port_service, service_of};

verus! {

/// The value of a decimal digit character.
pub open spec fn digit_value(c: char) -> int {
    (c as int) - 48
}

/// The number that a string of decimal digits denotes.
pub open spec fn dec_value(s: Seq<char>) -> int
    decreases s.len(),
{
    if s.len() == 0 {
        0
    } else {
        dec_value(s.drop_last()) * 10 + digit_value(s.last())
    }
}

pub open spec fn is_dec_digit(c: char) -> bool {
    '0' <= c && c <= '9'
}

proof fn lemma_dec_digit(d: nat)
    requires
        d < 10,
    ensures
        is_dec_digit(dec_digit(d)),
        digit_value(dec_digit(d)) == d,
{
    let b: u8 = (48 + d) as u8;
    assert(b as char as int == b as int);
}

/// Numbers are written in decimal exactly: the digits denote the number, and there
/// is no leading zero.
pub proof fn law_decimal_exact(n: nat)
    ensures
        dec_value(dec_text(n)) == n,
        forall|i: int| 0 <= i < dec_text(n).len() ==> is_dec_digit(#[trigger] dec_text(n)[i]),
        dec_text(n).len() == 1 || dec_text(n)[0] != '0',
        n >= 10 ==> dec_text(n).len() >= 2,
    decreases n,
{
    lemma_dec_digit(n % 10);
    let t = dec_text(n);
    if n >= 10 {
        law_decimal_exact(n / 10);
        let u = dec_text(n / 10);
        assert(t.drop_last() =~= u);
        assert(t[0] == u[0]);
        if n / 10 < 10 {
            lemma_dec_digit(n / 10);
            assert(u[0] == dec_digit(n / 10));
            assert(digit_value(u[0]) != 0);
        }
    } else {
        assert(t.drop_last() =~= Seq::<char>::empty());
        assert(dec_value(t) == dec_value(t.drop_last()) * 10 + digit_value(t.last()));
    }
}


/// The value of a lowercase hexadecimal digit character.
pub open spec fn hex_digit_value(c: char) -> int {
    if c <= '9' { (c as int) - 48 } else { (c as int) - 87 }
}

pub open spec fn is_hex_digit(c: char) -> bool {
    ('0' <= c && c <= '9') || ('a' <= c && c <= 'f')
}

/// The number that a string of lowercase hexadecimal digits denotes.
pub open spec fn hex_value(s: Seq<char>) -> int
    decreases s.len(),
{
    if s.len() == 0 {
        0
    } else {
        hex_value(s.drop_last()) * 16 + hex_digit_value(s.last())
    }
}

proof fn lemma_hex_digit(d: nat)
    requires
        d < 16,
    ensures
        is_hex_digit(hex_digit(d)),
        hex_digit_value(hex_digit(d)) == d,
{
    if d < 10 {
        let b: u8 = (48 + d) as u8;
        assert(b as char as int == b as int);
    } else {
        let b: u8 = (87 + d) as u8;
        assert(b as char as int == b as int);
    }
}

/// Numbers are written in hexadecimal exactly: lowercase digits that denote the
/// number, at least `width` of them, and zeros in front only to reach `width`.
pub proof fn law_hexadecimal_exact(n: nat, width: nat)
    ensures
        hex_value(hex_text(n, width)) == n,
        forall|i: int| 0 <= i < hex_text(n, width).len() ==> is_hex_digit(#[trigger] hex_text(n, width)[i]),
        hex_text(n, width).len() >= width,
        hex_text(n, width).len() >= 1,
        hex_text(n, width).len() > width && hex_text(n, width).len() > 1 ==> hex_text(n, width)[0] != '0',
        n >= 16 ==> hex_text(n, width).len() >= 2,
    decreases n + width,
{
    lemma_hex_digit(n % 16);
    let t = hex_text(n, width);
    if n < 16 && width <= 1 {
        assert(t.drop_last() =~= Seq::<char>::empty());
        assert(hex_value(t) == hex_value(t.drop_last()) * 16 + hex_digit_value(t.last()));
    } else {
        let w: nat = if width == 0 { 0 } else { (width - 1) as nat };
        law_hexadecimal_exact(n / 16, w);
        let u = hex_text(n / 16, w);
        assert(t.drop_last() =~= u);
        assert(t[0] == u[0]);
        if n / 16 < 16 && w <= 1 {
            lemma_hex_digit(n / 16);
            assert(u[0] == hex_digit(n / 16));
        }
    }
}


/// The protocol family of a summary follows from its protocol name: TCP, UDP,
/// ICMP (both versions) and ARP each have their own family, and "other" is the family
/// of exactly the IPv4, IPv6 and `ETH ...` summaries.
pub proof fn law_kind_follows_protocol(h: Headers)
    ensures
        summary_of(h).kind == Kind::Tcp <==> summary_of(h).protocol == "TCP"@,
        summary_of(h).kind == Kind::Udp <==> summary_of(h).protocol == "UDP"@,
        summary_of(h).kind == Kind::Icmp <==> (summary_of(h).protocol == "ICMP"@ || summary_of(h).protocol
            == "ICMPv6"@),
        summary_of(h).kind == Kind::Arp <==> summary_of(h).protocol == "ARP"@,
        summary_of(h).kind == Kind::Other <==> (summary_of(h).protocol == "IPv4"@ || summary_of(h).protocol
            == "IPv6"@ || (summary_of(h).protocol.len() >= 4 && summary_of(h).protocol.subrange(0, 4)
            == "ETH "@)),
{
    reveal_strlit("TCP");
    reveal_strlit("UDP");
    reveal_strlit("ICMP");
    reveal_strlit("ICMPv6");
    reveal_strlit("ARP");
    reveal_strlit("IPv4");
    reveal_strlit("IPv6");
    reveal_strlit("ETH ");
    assert("TCP"@[0] == 'T' && "UDP"@[0] == 'U' && "ARP"@[0] == 'A' && "ETH "@[0] == 'E');
    assert("ICMP"@[0] == 'I' && "ICMPv6"@[0] == 'I' && "IPv4"@[0] == 'I' && "IPv6"@[0] == 'I');
    assert("ICMP"@[1] == 'C' && "ICMPv6"@[1] == 'C' && "IPv4"@[1] == 'P' && "IPv6"@[1] == 'P');
    assert("ICMP"@.len() == 4 && "ICMPv6"@.len() == 6);
    let p = summary_of(h).protocol;
    if (h.transport is None || h.transport == Some(TransportInfo::Igmp)) && h.net is None {
        assert(p[0] == 'E');
        assert(p.subrange(0, 4) =~= "ETH "@);
    }
    if p.len() >= 4 {
        assert(p.subrange(0, 4)[0] == p[0]);
    }
}

/// A frame whose ether type `etherparse` does not read further shows its MAC
/// addresses, `ETH 0x` with the ether type in four hex digits, and the length of
/// what follows the 14-byte link header.
pub proof fn law_unread_ether_type_summary(data: Seq<u8>, h: Headers)
    requires
        has_ethernet_header(Some(h), data),
        is_link_only(h, data.len() - 14),
    ensures
        summary_of(h).source == mac_text(data.subrange(6, 12)),
        summary_of(h).destination == mac_text(data.subrange(0, 6)),
        summary_of(h).protocol == "ETH "@ + "0x"@ + hex_u16(be_u16(data[12], data[13]), 4),
        summary_of(h).info == "len="@ + dec_text((data.len() - 14) as nat),
        summary_of(h).kind == Kind::Other,
{
}

/// A cooked capture of an ether type that `etherparse` does not read further shows
/// `?` for both addresses, `ETH ?`, and the length of what follows the link header.
pub proof fn law_unread_cooked_summary(h: Headers, payload_len: nat)
    requires
        decodes_payload_only(Some(h), payload_len as int),
    ensures
        summary_of(h).source == "?"@,
        summary_of(h).destination == "?"@,
        summary_of(h).protocol == "ETH "@ + "?"@,
        summary_of(h).info == "len="@ + dec_text(payload_len),
        summary_of(h).kind == Kind::Other,
{
}


/// Raising the dump limit to the data's length or beyond changes nothing; a dump of
/// data longer than the limit is the dump of its first `max_bytes` bytes followed by
/// the line that counts the rest.
pub proof fn law_hex_dump_truncates(data: Seq<u8>, max_bytes: nat)
    ensures
        data.len() > max_bytes ==> hex_dump_text(data, max_bytes) == hex_dump_text(
            data.take(max_bytes as int),
            max_bytes,
        ) + more_bytes_line((data.len() - max_bytes) as nat),
        data.len() <= max_bytes ==> hex_dump_text(data, max_bytes) == hex_dump_text(data, data.len()),
{
    if data.len() > max_bytes {
        assert(data.take(max_bytes as int).take(max_bytes as int) =~= data.take(max_bytes as int));
    } else {
        assert(data.take(data.len() as int) =~= data);
    }
}

/// Powers of sixteen.
pub open spec fn pow16(k: nat) -> nat
    decreases k,
{
    if k == 0 { 1 } else { 16 * pow16((k - 1) as nat) }
}

/// A number below `16^width` takes exactly `width` hex digits when padded to `width`.
pub proof fn law_hex_width_exact(n: nat, width: nat)
    requires
        width >= 1,
        n < pow16(width),
    ensures
        hex_text(n, width).len() == width,
    decreases width,
{
    if width > 1 {
        assert(n / 16 < pow16((width - 1) as nat));
        law_hex_width_exact(n / 16, (width - 1) as nat);
    } else {
        assert(pow16(0) == 1);
    }
}

/// Every line of a dump has the same layout while offsets stay below 0x10000: the
/// offset in characters 6 to 9, the hex column from character 12 padded to 47
/// characters, and the ASCII column from character 61, so the columns line up.
pub proof fn law_dump_line_layout(offset: nat, chunk: Seq<u8>)
    requires
        offset < 0x10000,
        chunk.len() <= 16,
    ensures
        dump_line(offset, chunk).len() == 62 + chunk.len(),
        dump_line(offset, chunk).subrange(6, 10) == hex_text(offset, 4),
        dump_line(offset, chunk).subrange(12, 12 + hex_join(chunk, ' ').len() as int) == hex_join(chunk, ' '),
        dump_line(offset, chunk).subrange(61, 61 + chunk.len() as int) == ascii_text(chunk),
        dump_line(offset, chunk)[61 + chunk.len() as int] == '\n',
{
    reveal_strlit("      ");
    reveal_strlit("  ");
    assert(pow16(4) == 0x10000) by {
        assert(pow16(0) == 1);
        assert(pow16(1) == 16);
        assert(pow16(2) == 256);
        assert(pow16(3) == 4096);
    }
    law_hex_width_exact(offset, 4);
    lemma_hex_join_len(chunk, ' ');
    let line = dump_line(offset, chunk);
    let hex = hex_join(chunk, ' ');
    let padded = pad_right(hex, 47);
    assert(padded.len() == 47);
    assert(line.subrange(6, 10) =~= hex_text(offset, 4));
    assert(line.subrange(12, 12 + hex.len() as int) =~= hex);
    assert(line.subrange(61, 61 + chunk.len() as int) =~= ascii_text(chunk));
}

/// A MAC address always takes 17 characters: six two-digit bytes and five colons.
pub proof fn law_mac_text_length(bytes: Seq<u8>)
    requires
        bytes.len() == 6,
    ensures
        mac_text(bytes).len() == 17,
{
    lemma_hex_join_len(bytes, ':');
}

/// The service of a packet is named by the destination port when that port is
/// well known, else by the source port; there is one exactly when either port is
/// well known.
pub proof fn law_service_destination_first(source_port: u16, destination_port: u16)
    ensures
        service_of(source_port, destination_port) is Some <==> (port_service(source_port) is Some
            || port_service(destination_port) is Some),
        port_service(destination_port) is Some ==> service_of(source_port, destination_port)
            == port_service(destination_port),
        port_service(destination_port) is None ==> service_of(source_port, destination_port)
            == port_service(source_port),
{
}

/// OpenBSD loopback frames are read like BSD loopback frames, and raw, IPv4 and IPv6
/// frames all as a bare IP packet; any other link type than the supported ones is
/// never read.
pub proof fn law_link_types(link_type: i32, data: Seq<u8>)
    ensures
        framing_of(linktype::LOOP, data) == framing_of(linktype::NULL, data),
        framing_of(linktype::IPV4, data) == framing_of(linktype::RAW, data),
        framing_of(linktype::IPV6, data) == framing_of(linktype::RAW, data),
        link_type != linktype::ETHERNET && link_type != linktype::NULL && link_type != linktype::LOOP
            && link_type != linktype::RAW && link_type != linktype::IPV4 && link_type != linktype::IPV6
            && link_type != linktype::LINUX_SLL && link_type != linktype::LINUX_SLL2 ==> decoded(
            link_type,
            data,
        ) is None,
{
}

/// A loopback frame (BSD or OpenBSD) decodes to what the IP packet after its 4-byte
/// address family decodes to on its own as a raw, IPv4 or IPv6 frame: the family
/// bytes are ignored, and the IP version is read from the packet itself.
pub proof fn law_ip_link_types_decode_alike(family: Seq<u8>, packet: Seq<u8>)
    requires
        family.len() == 4,
    ensures
        decoded(linktype::NULL, family + packet) == decoded(linktype::RAW, packet),
        decoded(linktype::LOOP, family + packet) == decoded(linktype::RAW, packet),
        decoded(linktype::IPV4, packet) == decoded(linktype::RAW, packet),
        decoded(linktype::IPV6, packet) == decoded(linktype::RAW, packet),
{
    assert((family + packet).skip(4) =~= packet);
    assert(packet.skip(0) =~= packet);
}

/// Both versions of Linux cooked captures decode alike: the ether type is read big
/// endian (bytes 14 and 15 in the first version, 0 and 1 in the second), every other
/// byte of the link header is ignored, and what follows it is decoded as a packet of
/// that ether type.
pub proof fn law_cooked_captures_decode_alike(head: Seq<u8>, tail: Seq<u8>, protocol: Seq<u8>, rest: Seq<u8>)
    requires
        head.len() == 14,
        tail.len() == 18,
        protocol.len() == 2,
    ensures
        decoded(linktype::LINUX_SLL, head + protocol + rest) == decoded(linktype::LINUX_SLL2, protocol + tail + rest),
{
    let a = head + protocol + rest;
    let b = protocol + tail + rest;
    assert(a[14] == protocol[0] && a[15] == protocol[1]);
    assert(b[0] == protocol[0] && b[1] == protocol[1]);
    assert(a.skip(16) =~= rest);
    assert(b.skip(20) =~= rest);
}

/// With a limit of N packets the capture reads exactly N: it reads while fewer than
/// N were captured (so none for a limit of zero), finishes on the packet that
/// reaches N, and without a limit only stops on a failure.
pub proof fn law_capture_stops_at_limit(seen: nat, limit: Option<u64>, event: CaptureEvent)
    ensures
        should_read_spec(seen, limit) <==> (limit is None || seen < limit.unwrap()),
        limit is Some && limit.unwrap() == 0 ==> !should_read_spec(seen, limit),
        should_read_spec(seen, limit) && event == CaptureEvent::Packet ==> (action_after(seen, limit, event)
            == CaptureAction::Finish <==> (limit is Some && seen + 1 == limit.unwrap())),
        action_after(seen, limit, event) == CaptureAction::Finish <==> (event == CaptureEvent::Packet
            && limit is Some && seen + 1 >= limit.unwrap()),
        action_after(seen, limit, event) == CaptureAction::Abort <==> event == CaptureEvent::Failure,
{
}


/// Whether the TCP flag called `name` is set in `t`.
pub open spec fn tcp_flag_set(t: TcpInfo, name: Seq<char>) -> bool {
    (name == "SYN"@ && t.syn) || (name == "FIN"@ && t.fin) || (name == "RST"@ && t.rst) || (name == "PSH"@
        && t.psh) || (name == "ACK"@ && t.ack)
}

/// The position of a TCP flag name in the order SYN, FIN, RST, PSH, ACK.
pub open spec fn tcp_flag_rank(name: Seq<char>) -> int {
    if name == "SYN"@ {
        0
    } else if name == "FIN"@ {
        1
    } else if name == "RST"@ {
        2
    } else if name == "PSH"@ {
        3
    } else {
        4
    }
}

proof fn lemma_flag_names_distinct()
    ensures
        "SYN"@ != "FIN"@, "SYN"@ != "RST"@, "SYN"@ != "PSH"@, "SYN"@ != "ACK"@,
        "FIN"@ != "RST"@, "FIN"@ != "PSH"@, "FIN"@ != "ACK"@,
        "RST"@ != "PSH"@, "RST"@ != "ACK"@,
        "PSH"@ != "ACK"@,
{
    reveal_strlit("SYN");
    reveal_strlit("FIN");
    reveal_strlit("RST");
    reveal_strlit("PSH");
    reveal_strlit("ACK");
    assert("SYN"@[0] == 'S' && "FIN"@[0] == 'F' && "RST"@[0] == 'R' && "PSH"@[0] == 'P' && "ACK"@[0] == 'A');
}

/// The flag list of a TCP summary names every set flag and nothing else: each of
/// SYN, FIN, RST, PSH and ACK appears exactly when its flag is set, whatever the
/// other flags are, once, and in the order SYN, FIN, RST, PSH, ACK.
pub proof fn law_tcp_flag_list(t: TcpInfo)
    ensures
        tcp_flag_names(t).contains("SYN"@) <==> t.syn,
        tcp_flag_names(t).contains("FIN"@) <==> t.fin,
        tcp_flag_names(t).contains("RST"@) <==> t.rst,
        tcp_flag_names(t).contains("PSH"@) <==> t.psh,
        tcp_flag_names(t).contains("ACK"@) <==> t.ack,
        forall|i: int| 0 <= i < tcp_flag_names(t).len() ==> tcp_flag_set(t, #[trigger] tcp_flag_names(t)[i]),
        forall|i: int, j: int|
            0 <= i < j < tcp_flag_names(t).len() ==> tcp_flag_rank(#[trigger] tcp_flag_names(t)[i])
                < tcp_flag_rank(#[trigger] tcp_flag_names(t)[j]),
{
    lemma_flag_names_distinct();
    let a = flag_if(t.syn, "SYN"@);
    let b = flag_if(t.fin, "FIN"@);
    let c = flag_if(t.rst, "RST"@);
    let d = flag_if(t.psh, "PSH"@);
    let e = flag_if(t.ack, "ACK"@);
    let l = tcp_flag_names(t);
    assert(l == a + b + c + d + e);
    let ab = a + b;
    let abc = ab + c;
    let abcd = abc + d;
    assert forall|i: int| 0 <= i < l.len() implies tcp_flag_set(t, #[trigger] l[i]) && (l[i] == "SYN"@ ==> i
        == 0) && (l[i] == "FIN"@ ==> i == a.len()) && (l[i] == "RST"@ ==> i == ab.len()) && (l[i] == "PSH"@
        ==> i == abc.len()) && (l[i] == "ACK"@ ==> i == abcd.len()) && tcp_flag_rank(l[i]) == (if i < a.len() {
        0int
    } else if i < ab.len() {
        1int
    } else if i < abc.len() {
        2int
    } else if i < abcd.len() {
        3int
    } else {
        4int
    }) by {
        if i < a.len() {
            assert(l[i] == a[i]);
        } else if i < ab.len() {
            assert(l[i] == b[i - a.len()]);
        } else if i < abc.len() {
            assert(l[i] == c[i - ab.len()]);
        } else if i < abcd.len() {
            assert(l[i] == d[i - abc.len()]);
        } else {
            assert(l[i] == e[i - abcd.len()]);
        }
    }
    if t.syn {
        assert(l[0] == "SYN"@);
    }
    if t.fin {
        assert(l[a.len() as int] == "FIN"@);
    }
    if t.rst {
        assert(l[ab.len() as int] == "RST"@);
    }
    if t.psh {
        assert(l[abc.len() as int] == "PSH"@);
    }
    if t.ack {
        assert(l[abcd.len() as int] == "ACK"@);
    }
}

/// A TCP summary shows the flag list in brackets, then the payload length, after the
/// name of a well-known service on either port when there is one; a segment with
/// only ACK set, for one, shows `[ACK] len=n`.
pub proof fn law_tcp_info(h: Headers, t: TcpInfo)
    requires
        h.transport == Some(TransportInfo::Tcp(t)),
    ensures
        service_of(t.source_port, t.destination_port) is None ==> summary_of(h).info == "["@ + join_names(
            tcp_flag_names(t),
        ) + "] len="@ + dec_usize(h.payload_len),
        service_of(t.source_port, t.destination_port) matches Some(name) ==> summary_of(h).info == name@
            + " "@ + "["@ + join_names(tcp_flag_names(t)) + "] len="@ + dec_usize(h.payload_len),
        !t.syn && !t.fin && !t.rst && !t.psh && t.ack && service_of(t.source_port, t.destination_port) is None
            ==> summary_of(h).info == "[ACK] len="@ + dec_usize(h.payload_len),
        !t.syn && !t.fin && !t.rst && !t.psh && !t.ack && service_of(t.source_port, t.destination_port) is None
            ==> summary_of(h).info == "[] len="@ + dec_usize(h.payload_len),
{
    reveal_strlit("[ACK] len=");
    reveal_strlit("[] len=");
    reveal_strlit("[");
    reveal_strlit("] len=");
    reveal_strlit("ACK");
    let names = tcp_flag_names(t);
    if !t.syn && !t.fin && !t.rst && !t.psh && t.ack {
        assert(names =~= seq!["ACK"@]);
        assert("["@ + "ACK"@ + "] len="@ =~= "[ACK] len="@);
    }
    if !t.syn && !t.fin && !t.rst && !t.psh && !t.ack {
        assert(names =~= Seq::<Seq<char>>::empty());
        assert("["@ + Seq::<char>::empty() + "] len="@ =~= "[] len="@);
    }
}


/// An ICMPv6 summary names the types 128, 129, 133, 134, 135 and 136, each name
/// exactly for its own type, and shows any other type as `type=` and the type,
/// then ` code=` and the code, in decimal.
pub proof fn law_icmpv6_info(h: Headers, type_u8: u8, code_u8: u8)
    requires
        h.transport == Some(TransportInfo::Icmpv6 { type_u8, code_u8 }),
    ensures
        summary_of(h).info == "echo request"@ <==> type_u8 == 128,
        summary_of(h).info == "echo reply"@ <==> type_u8 == 129,
        summary_of(h).info == "router solicitation"@ <==> type_u8 == 133,
        summary_of(h).info == "router advertisement"@ <==> type_u8 == 134,
        summary_of(h).info == "neighbor solicitation"@ <==> type_u8 == 135,
        summary_of(h).info == "neighbor advertisement"@ <==> type_u8 == 136,
        type_u8 != 128 && type_u8 != 129 && type_u8 != 133 && type_u8 != 134 && type_u8 != 135 && type_u8
            != 136 ==> summary_of(h).info == "type="@ + dec_u8(type_u8) + " code="@ + dec_u8(code_u8),
        summary_of(h).protocol == "ICMPv6"@,
        summary_of(h).kind == Kind::Icmp,
{
    reveal_strlit("echo request");
    reveal_strlit("echo reply");
    reveal_strlit("router solicitation");
    reveal_strlit("router advertisement");
    reveal_strlit("neighbor solicitation");
    reveal_strlit("neighbor advertisement");
    reveal_strlit("type=");
    let info = summary_of(h).info;
    assert("echo request"@.len() == 12 && "echo reply"@.len() == 10 && "router solicitation"@.len() == 19);
    assert("router advertisement"@.len() == 20 && "neighbor solicitation"@.len() == 21);
    assert("neighbor advertisement"@.len() == 22);
    assert("echo request"@[0] == 'e' && "echo reply"@[0] == 'e' && "router solicitation"@[0] == 'r');
    assert("router advertisement"@[0] == 'r' && "neighbor solicitation"@[0] == 'n');
    assert("neighbor advertisement"@[0] == 'n' && "type="@[0] == 't');
    if type_u8 != 128 && type_u8 != 129 && type_u8 != 133 && type_u8 != 134 && type_u8 != 135 && type_u8 != 136 {
        assert(info[0] == 't');
    }
}

/// The ASCII column of a dump line shows each byte from 0x20 to 0x7e (printable
/// ASCII and the space) as itself and every other byte, 0x7f and above among them,
/// as `.`; so it only ever holds printable ASCII.
pub proof fn law_ascii_column(offset: nat, chunk: Seq<u8>)
    requires
        offset < 0x10000,
        chunk.len() <= 16,
    ensures
        forall|i: int|
            0 <= i < chunk.len() ==> {
                let c = dump_line(offset, chunk)[61 + i];
                &&& 0x20 <= (c as u32) && (c as u32) <= 0x7e
                &&& 0x20 <= #[trigger] chunk[i] && chunk[i] <= 0x7e ==> c == chunk[i] as char
                &&& !(0x20 <= chunk[i] && chunk[i] <= 0x7e) ==> c == '.'
            },
{
    law_dump_line_layout(offset, chunk);
    let line = dump_line(offset, chunk);
    assert forall|i: int| 0 <= i < chunk.len() implies {
        let c = line[61 + i];
        &&& 0x20 <= (c as u32) && (c as u32) <= 0x7e
        &&& 0x20 <= #[trigger] chunk[i] && chunk[i] <= 0x7e ==> c == chunk[i] as char
        &&& !(0x20 <= chunk[i] && chunk[i] <= 0x7e) ==> c == '.'
    } by {
        assert(line.subrange(61, 61 + chunk.len() as int)[i] == line[61 + i]);
        assert(ascii_text(chunk)[i] == ascii_char(chunk[i]));
        let b = chunk[i];
        assert(b as char as u32 == b as u32);
    }
}

/// With TCP or UDP over IPv6, both addresses are shown in brackets followed by a
/// colon and the port: `[source]:port` and `[destination]:port`.
pub proof fn law_ipv6_addresses_with_ports(h: Headers, source: [u8; 16], destination: [u8; 16], next_header: u8)
    requires
        h.net == Some(NetInfo::Ipv6 { source, destination, next_header }),
    ensures
        h.transport matches Some(TransportInfo::Tcp(t)) ==> summary_of(h).source == "["@ + ipv6_text(source@)
            + "]:"@ + dec_u16(t.source_port) && summary_of(h).destination == "["@ + ipv6_text(destination@)
            + "]:"@ + dec_u16(t.destination_port),
        h.transport matches Some(TransportInfo::Udp { source_port, destination_port }) ==> summary_of(h).source
            == "["@ + ipv6_text(source@) + "]:"@ + dec_u16(source_port) && summary_of(h).destination == "["@
            + ipv6_text(destination@) + "]:"@ + dec_u16(destination_port),
{
    reveal_strlit("[");
    reveal_strlit("]:");
    assert("["@ =~= seq!['[']);
    assert("]:"@ =~= seq![']', ':']);
}

/// With TCP or UDP over IPv4, both addresses are shown followed by a colon and the
/// port: `source:port` and `destination:port`.
pub proof fn law_ipv4_addresses_with_ports(h: Headers, source: [u8; 4], destination: [u8; 4], protocol: u8)
    requires
        h.net == Some(NetInfo::Ipv4 { source, destination, protocol }),
    ensures
        h.transport matches Some(TransportInfo::Tcp(t)) ==> summary_of(h).source == ipv4_text(source@) + ":"@
            + dec_u16(t.source_port) && summary_of(h).destination == ipv4_text(destination@) + ":"@ + dec_u16(
            t.destination_port,
        ),
        h.transport matches Some(TransportInfo::Udp { source_port, destination_port }) ==> summary_of(h).source
            == ipv4_text(source@) + ":"@ + dec_u16(source_port) && summary_of(h).destination == ipv4_text(
            destination@,
        ) + ":"@ + dec_u16(destination_port),
{
    reveal_strlit(":");
    assert(":"@ =~= seq![':']);
}

/// Whether the transport layer carries no ports: neither TCP nor UDP.
pub open spec fn has_no_ports(h: Headers) -> bool {
    !(h.transport matches Some(TransportInfo::Tcp(_))) && !(h.transport matches Some(TransportInfo::Udp { .. }))
}

/// Without TCP or UDP, an IPv6 packet shows its source and destination addresses
/// as they are, the source first; without any transport header it shows `IPv6` and
/// its next header number.
pub proof fn law_ipv6_addresses_without_ports(h: Headers, source: [u8; 16], destination: [u8; 16], next_header: u8)
    requires
        h.net == Some(NetInfo::Ipv6 { source, destination, next_header }),
        has_no_ports(h),
    ensures
        summary_of(h).source == ipv6_text(source@),
        summary_of(h).destination == ipv6_text(destination@),
        h.transport is None || h.transport == Some(TransportInfo::Igmp) ==> summary_of(h).protocol == "IPv6"@
            && summary_of(h).info == "next header "@ + dec_u8(next_header),
{
}

/// Without TCP or UDP, an IPv4 packet shows its source and destination addresses
/// as they are, the source first; without any transport header it shows `IPv4` and
/// its protocol number.
pub proof fn law_ipv4_addresses_without_ports(h: Headers, source: [u8; 4], destination: [u8; 4], protocol: u8)
    requires
        h.net == Some(NetInfo::Ipv4 { source, destination, protocol }),
        has_no_ports(h),
    ensures
        summary_of(h).source == ipv4_text(source@),
        summary_of(h).destination == ipv4_text(destination@),
        h.transport is None || h.transport == Some(TransportInfo::Igmp) ==> summary_of(h).protocol == "IPv4"@
            && summary_of(h).info == "protocol "@ + dec_u8(protocol),
{
}

} // verus!
