use packet_sniffer::capture::{capture_step, should_read, CaptureAction, CaptureEvent};
use packet_sniffer::headers::{
    ArpEthIpv4, EthernetInfo, Headers, Icmpv4Info, NetInfo, TcpInfo, TransportInfo,
};
use packet_sniffer::hexdump::hex_dump;
use packet_sniffer::summary::{kind_color, summarize, Kind, LineColor};
use packet_sniffer::text::{ipv4_string, ipv6_string, mac, service, with_port};

const ETH: EthernetInfo = EthernetInfo {
    source: [0x02, 0, 0, 0, 0, 0x0a],
    destination: [0xff, 0xff, 0xff, 0xff, 0xff, 0xff],
    ether_type: 0x0806,
};

fn ipv4_headers(transport: Option<TransportInfo>, payload_len: usize) -> Headers {
    Headers {
        link: Some(ETH),
        net: Some(NetInfo::Ipv4 { source: [10, 0, 0, 1], destination: [10, 0, 0, 2], protocol: 6 }),
        transport,
        payload_len,
    }
}

#[test]
fn tcp_summary_lists_flags_and_service() {
    let t = TcpInfo {
        source_port: 22,
        destination_port: 60000,
        syn: true,
        fin: false,
        rst: false,
        psh: false,
        ack: true,
    };
    let s = summarize(&ipv4_headers(Some(TransportInfo::Tcp(t)), 0));
    assert_eq!(s.source, "10.0.0.1:22");
    assert_eq!(s.destination, "10.0.0.2:60000");
    assert_eq!(s.protocol, "TCP");
    assert_eq!(s.info, "SSH [SYN, ACK] len=0");
    assert_eq!(s.kind, Kind::Tcp);
}

#[test]
fn tcp_summary_without_flags() {
    let t = TcpInfo {
        source_port: 1,
        destination_port: 2,
        syn: false,
        fin: false,
        rst: false,
        psh: false,
        ack: false,
    };
    let s = summarize(&ipv4_headers(Some(TransportInfo::Tcp(t)), 1460));
    assert_eq!(s.info, "[] len=1460");
}

#[test]
fn tcp_summary_all_flags() {
    let t = TcpInfo {
        source_port: 1,
        destination_port: 2,
        syn: true,
        fin: true,
        rst: true,
        psh: true,
        ack: true,
    };
    let s = summarize(&ipv4_headers(Some(TransportInfo::Tcp(t)), 7));
    assert_eq!(s.info, "[SYN, FIN, RST, PSH, ACK] len=7");
}

#[test]
fn udp_summary_prefers_destination_service() {
    let s = summarize(&ipv4_headers(
        Some(TransportInfo::Udp { source_port: 53, destination_port: 67 }),
        300,
    ));
    assert_eq!(s.info, "DHCP len=300");
    assert_eq!(s.protocol, "UDP");
    assert_eq!(s.kind, Kind::Udp);
}

#[test]
fn icmpv4_summaries() {
    let cases = [
        (Icmpv4Info::EchoReply { id: 1, seq: 65535 }, "echo reply id=1 seq=65535"),
        (Icmpv4Info::DestinationUnreachable, "destination unreachable"),
        (Icmpv4Info::TimeExceeded, "time exceeded"),
        (Icmpv4Info::Other { type_u8: 13, code_u8: 0 }, "type=13 code=0"),
    ];
    for (i, info) in cases {
        let s = summarize(&ipv4_headers(Some(TransportInfo::Icmpv4(i)), 0));
        assert_eq!(s.info, info);
        assert_eq!(s.protocol, "ICMP");
        assert_eq!(s.source, "10.0.0.1");
        assert_eq!(s.kind, Kind::Icmp);
    }
}

#[test]
fn icmpv6_summaries() {
    let net = NetInfo::Ipv6 {
        source: [0xfe, 0x80, 0, 0, 0, 0, 0, 0, 0, 0, 0, 0, 0, 0, 0, 1],
        destination: [0xff, 0x02, 0, 0, 0, 0, 0, 0, 0, 0, 0, 0, 0, 0, 0, 2],
        next_header: 58,
    };
    let cases = [
        (128, 0, "echo request"),
        (129, 0, "echo reply"),
        (133, 0, "router solicitation"),
        (134, 0, "router advertisement"),
        (135, 0, "neighbor solicitation"),
        (136, 0, "neighbor advertisement"),
        (1, 4, "type=1 code=4"),
    ];
    for (t, c, info) in cases {
        let h = Headers {
            link: None,
            net: Some(net),
            transport: Some(TransportInfo::Icmpv6 { type_u8: t, code_u8: c }),
            payload_len: 0,
        };
        let s = summarize(&h);
        assert_eq!(s.info, info);
        assert_eq!(s.protocol, "ICMPv6");
        assert_eq!(s.source, "fe80::1");
        assert_eq!(s.destination, "ff02::2");
        assert_eq!(s.kind, Kind::Icmp);
    }
}

#[test]
fn arp_summaries() {
    let request = ArpEthIpv4 {
        operation: 1,
        sender_mac: [0x02, 0, 0, 0, 0, 0x0a],
        sender_ipv4: [192, 168, 1, 10],
        target_ipv4: [192, 168, 1, 1],
    };
    let h = Headers {
        link: Some(ETH),
        net: Some(NetInfo::Arp { operation: 1, eth_ipv4: Some(request) }),
        transport: None,
        payload_len: 0,
    };
    let s = summarize(&h);
    assert_eq!(s.info, "who has 192.168.1.1? tell 192.168.1.10");
    assert_eq!(s.source, "192.168.1.10");
    assert_eq!(s.destination, "192.168.1.1");

    let other = ArpEthIpv4 { operation: 9, ..request };
    let h = Headers { net: Some(NetInfo::Arp { operation: 9, eth_ipv4: Some(other) }), ..h };
    let s = summarize(&h);
    assert_eq!(s.info, "operation 9");
    assert_eq!(s.source, "02:00:00:00:00:0a");
    assert_eq!(s.destination, "ff:ff:ff:ff:ff:ff");
    assert_eq!(s.protocol, "ARP");
    assert_eq!(s.kind, Kind::Arp);

    let h = Headers { link: None, net: Some(NetInfo::Arp { operation: 3, eth_ipv4: None }), ..h };
    let s = summarize(&h);
    assert_eq!(s.info, "operation 3");
    assert_eq!(s.source, "?");
    assert_eq!(s.destination, "?");
}

#[test]
fn network_only_summaries() {
    let h = ipv4_headers(None, 0);
    let h = Headers { net: Some(NetInfo::Ipv4 { source: [1, 2, 3, 4], destination: [5, 6, 7, 8], protocol: 2 }), ..h };
    let s = summarize(&h);
    assert_eq!(s.protocol, "IPv4");
    assert_eq!(s.info, "protocol 2");
    assert_eq!(s.source, "1.2.3.4");
    assert_eq!(s.kind, Kind::Other);

    let h = Headers {
        link: None,
        net: Some(NetInfo::Ipv6 { source: [0; 16], destination: [0; 16], next_header: 59 }),
        transport: None,
        payload_len: 0,
    };
    let s = summarize(&h);
    assert_eq!(s.protocol, "IPv6");
    assert_eq!(s.info, "next header 59");
    assert_eq!(s.source, "::");

    let h = Headers { link: None, net: None, transport: None, payload_len: 12 };
    let s = summarize(&h);
    assert_eq!(s.protocol, "ETH ?");
    assert_eq!(s.info, "len=12");
    assert_eq!(s.source, "?");

    let h = Headers { link: Some(EthernetInfo { ether_type: 0x0042, ..ETH }), ..h };
    let s = summarize(&h);
    assert_eq!(s.protocol, "ETH 0x0042");
    assert_eq!(s.destination, "ff:ff:ff:ff:ff:ff");
}

#[test]
fn ipv6_udp_summary_brackets_both_addresses() {
    let h = Headers {
        link: None,
        net: Some(NetInfo::Ipv6 {
            source: [0x20, 0x01, 0x0d, 0xb8, 0, 0, 0, 0, 0, 0, 0, 0, 0, 0, 0, 1],
            destination: [0x20, 0x01, 0x0d, 0xb8, 0, 1, 0, 0, 0, 0, 0, 0, 0, 0, 0, 2],
            next_header: 17,
        }),
        transport: Some(TransportInfo::Udp { source_port: 1900, destination_port: 40000 }),
        payload_len: 4,
    };
    let s = summarize(&h);
    assert_eq!(s.source, "[2001:db8::1]:1900");
    assert_eq!(s.destination, "[2001:db8:1::2]:40000");
    assert_eq!(s.info, "SSDP len=4");
}

#[test]
fn text_helpers() {
    assert_eq!(mac(&[0, 0x1b, 0x2c, 0xff, 0x0a, 0x90]), "00:1b:2c:ff:0a:90");
    assert_eq!(with_port("10.0.0.1", 0, false), "10.0.0.1:0");
    assert_eq!(with_port("::1", 65535, true), "[::1]:65535");
    assert_eq!(ipv4_string(&[0, 10, 255, 100]), "0.10.255.100");
    assert_eq!(ipv6_string([0; 16]), "::");
    assert_eq!(service(22, 80), Some("HTTP"));
    assert_eq!(service(123, 50000), Some("NTP"));
    assert_eq!(service(68, 9), Some("DHCP"));
    assert_eq!(service(5353, 443), Some("HTTPS"));
    assert_eq!(service(1000, 2000), None);
}

#[test]
fn hex_dump_exact_lines() {
    let dump = hex_dump(b"GET / HTTP/1.1\r\nHost", 16);
    assert_eq!(
        dump,
        "      0000  47 45 54 20 2f 20 48 54 54 50 2f 31 2e 31 0d 0a  GET / HTTP/1.1..\n      ... (4 more bytes)\n"
    );
    let dump = hex_dump(&[0x41, 0x00, 0x7f, 0x20, 0x7e], 64);
    assert_eq!(
        dump,
        "      0000  41 00 7f 20 7e                                   A.. ~\n"
    );
}

#[test]
fn hex_dump_edge_cases() {
    assert_eq!(hex_dump(&[], 64), "");
    assert_eq!(hex_dump(&[1, 2, 3], 0), "      ... (3 more bytes)\n");
    let data: Vec<u8> = (0..20u8).collect();
    let dump = hex_dump(&data, 20);
    let lines: Vec<&str> = dump.lines().collect();
    assert_eq!(lines.len(), 2);
    assert_eq!(lines[1], "      0010  10 11 12 13                                      ....");
    assert_eq!(lines[0].len(), lines[1].len() + 12);
}

#[test]
fn hex_dump_wide_offsets() {
    let data = vec![0x61u8; 0x10010];
    let dump = hex_dump(&data, 0x10010);
    let last = dump.lines().last().unwrap();
    assert_eq!(
        last,
        "      10000  61 61 61 61 61 61 61 61 61 61 61 61 61 61 61 61  aaaaaaaaaaaaaaaa"
    );
}

#[test]
fn capture_steps() {
    assert_eq!(capture_step(0, Some(2), CaptureEvent::Packet), (1, CaptureAction::Continue));
    assert_eq!(capture_step(1, Some(2), CaptureEvent::Packet), (2, CaptureAction::Finish));
    assert_eq!(capture_step(5, None, CaptureEvent::Packet), (6, CaptureAction::Continue));
    assert_eq!(capture_step(5, Some(6), CaptureEvent::Timeout), (5, CaptureAction::Continue));
    assert_eq!(capture_step(5, None, CaptureEvent::Failure), (5, CaptureAction::Abort));
}

#[test]
fn packet_limit_reads_that_many() {
    assert!(!should_read(0, Some(0)));
    assert!(should_read(0, Some(1)));
    assert!(!should_read(1, Some(1)));
    assert!(should_read(u64::MAX, None));
    assert_eq!(capture_step(0, Some(1), CaptureEvent::Packet), (1, CaptureAction::Finish));
}

#[test]
fn igmp_shows_as_network_only() {
    let h = Headers {
        link: None,
        net: Some(NetInfo::Ipv4 { source: [10, 0, 0, 1], destination: [224, 0, 0, 1], protocol: 2 }),
        transport: Some(TransportInfo::Igmp),
        payload_len: 0,
    };
    let s = summarize(&h);
    assert_eq!(s.protocol, "IPv4");
    assert_eq!(s.info, "protocol 2");
    assert_eq!(s.destination, "224.0.0.1");
    assert_eq!(s.kind, Kind::Other);
}

#[test]
fn colors_by_protocol_family() {
    assert_eq!(kind_color(Kind::Tcp), LineColor::Cyan);
    assert_eq!(kind_color(Kind::Udp), LineColor::Yellow);
    assert_eq!(kind_color(Kind::Icmp), LineColor::Red);
    assert_eq!(kind_color(Kind::Arp), LineColor::Magenta);
    assert_eq!(kind_color(Kind::Other), LineColor::White);
}
