use etherparse::{ArpHardwareId, ArpOperation, ArpPacket, EtherType, PacketBuilder};
use packet_sniffer::decode::{decode, framing, Framing};
use packet_sniffer::hexdump::hex_dump;
use packet_sniffer::linktype;
use packet_sniffer::summary::Kind;

const MAC_A: [u8; 6] = [0x02, 0, 0, 0, 0, 0x0a];
const MAC_B: [u8; 6] = [0x02, 0, 0, 0, 0, 0x0b];
const IP_A: [u8; 4] = [192, 168, 1, 10];
const IP_B: [u8; 4] = [93, 184, 216, 34];

#[test]
fn tcp_syn_over_ethernet() {
    let builder = PacketBuilder::ethernet2(MAC_A, MAC_B)
        .ipv4(IP_A, IP_B, 64)
        .tcp(51234, 443, 1000, 64240)
        .syn();
    let mut bytes = Vec::with_capacity(builder.size(0));
    builder.write(&mut bytes, &[]).unwrap();

    let s = decode(linktype::ETHERNET, &bytes).unwrap();
    assert_eq!(s.source, "192.168.1.10:51234");
    assert_eq!(s.destination, "93.184.216.34:443");
    assert_eq!(s.protocol, "TCP");
    assert_eq!(s.info, "HTTPS [SYN] len=0");
    assert_eq!(s.kind, Kind::Tcp);
}

#[test]
fn udp_dns_with_payload() {
    let builder = PacketBuilder::ethernet2(MAC_A, MAC_B)
        .ipv4(IP_A, [1, 1, 1, 1], 64)
        .udp(40000, 53);
    let payload = [0u8; 29];
    let mut bytes = Vec::new();
    builder.write(&mut bytes, &payload).unwrap();

    let s = decode(linktype::ETHERNET, &bytes).unwrap();
    assert_eq!(s.destination, "1.1.1.1:53");
    assert_eq!(s.protocol, "UDP");
    assert_eq!(s.info, "DNS len=29");
}

#[test]
fn icmp_echo_on_macos_loopback() {
    // macOS lo0 uses the NULL link type: 4-byte address family (AF_INET = 2), then IPv4
    let builder =
        PacketBuilder::ipv4([127, 0, 0, 1], [127, 0, 0, 1], 64).icmpv4_echo_request(7, 3);
    let mut bytes = vec![2, 0, 0, 0];
    builder.write(&mut bytes, &[]).unwrap();

    let s = decode(linktype::NULL, &bytes).unwrap();
    assert_eq!(s.source, "127.0.0.1");
    assert_eq!(s.protocol, "ICMP");
    assert_eq!(s.info, "echo request id=7 seq=3");
    assert_eq!(s.kind, Kind::Icmp);
}

#[test]
fn linux_cooked_captures() {
    let builder = PacketBuilder::ipv4(IP_A, IP_B, 64).udp(40000, 123);
    let mut ip = Vec::new();
    builder.write(&mut ip, &[]).unwrap();

    // SLL: 14 bytes of packet type / address fields, then the protocol (0x0800 = IPv4)
    let mut sll = vec![0u8; 14];
    sll.extend_from_slice(&[0x08, 0x00]);
    sll.extend_from_slice(&ip);
    // SLL2: protocol first, then 18 more bytes
    let mut sll2 = vec![0x08, 0x00];
    sll2.extend_from_slice(&[0u8; 18]);
    sll2.extend_from_slice(&ip);

    for (link_type, frame) in [(linktype::LINUX_SLL, sll), (linktype::LINUX_SLL2, sll2)] {
        let s = decode(link_type, &frame).unwrap();
        assert_eq!(s.destination, "93.184.216.34:123");
        assert_eq!(s.info, "NTP len=0");
    }
}

#[test]
fn ipv6_udp_uses_brackets() {
    let localhost = [0, 0, 0, 0, 0, 0, 0, 0, 0, 0, 0, 0, 0, 0, 0, 1];
    let builder = PacketBuilder::ipv6(localhost, localhost, 64).udp(5353, 5353);
    let mut bytes = Vec::new();
    builder.write(&mut bytes, &[]).unwrap();

    let s = decode(linktype::RAW, &bytes).unwrap();
    assert_eq!(s.source, "[::1]:5353");
    assert_eq!(s.info, "mDNS len=0");
}

#[test]
fn arp_request() {
    let arp = ArpPacket::new(
        ArpHardwareId::ETHERNET,
        EtherType::IPV4,
        ArpOperation::REQUEST,
        &MAC_A,
        &IP_A,
        &[0; 6],
        &[192, 168, 1, 1],
    )
    .unwrap();
    let builder = PacketBuilder::ethernet2(MAC_A, [0xff; 6]).arp(arp);
    let mut bytes = Vec::new();
    builder.write(&mut bytes).unwrap();

    let s = decode(linktype::ETHERNET, &bytes).unwrap();
    assert_eq!(s.protocol, "ARP");
    assert_eq!(s.info, "who has 192.168.1.1? tell 192.168.1.10");
    assert_eq!(s.kind, Kind::Arp);
}

#[test]
fn unknown_link_type_and_garbage_are_skipped() {
    assert_eq!(decode(9999, &[0; 64]), None);
    assert_eq!(decode(linktype::ETHERNET, &[0x01, 0x02]), None);
}

#[test]
fn hex_dump_shows_ascii_and_truncates() {
    let data: Vec<u8> = b"GET / HTTP/1.1\r\nHost".to_vec();
    let dump = hex_dump(&data, 16);
    assert!(dump.contains("0000  47 45 54 20"));
    assert!(dump.contains("GET / HTTP/1.1.."));
    assert!(dump.contains("... (4 more bytes)"));
}

#[test]
fn arp_reply_names_the_sender_mac() {
    let arp = ArpPacket::new(
        ArpHardwareId::ETHERNET,
        EtherType::IPV4,
        ArpOperation::REPLY,
        &MAC_B,
        &[192, 168, 1, 1],
        &MAC_A,
        &IP_A,
    )
    .unwrap();
    let builder = PacketBuilder::ethernet2(MAC_B, MAC_A).arp(arp);
    let mut bytes = Vec::new();
    builder.write(&mut bytes).unwrap();

    let s = decode(linktype::ETHERNET, &bytes).unwrap();
    assert_eq!(s.source, "192.168.1.1");
    assert_eq!(s.destination, "192.168.1.10");
    assert_eq!(s.info, "192.168.1.1 is at 02:00:00:00:00:0b");
    assert_eq!(s.kind, Kind::Arp);
}

#[test]
fn unknown_ether_type_over_ethernet() {
    let mut frame = Vec::new();
    frame.extend_from_slice(&MAC_B);
    frame.extend_from_slice(&MAC_A);
    frame.extend_from_slice(&[0x88, 0xcc]);
    frame.extend_from_slice(&[1, 2, 3, 4, 5]);
    let s = decode(linktype::ETHERNET, &frame).unwrap();
    assert_eq!(s.source, "02:00:00:00:00:0a");
    assert_eq!(s.destination, "02:00:00:00:00:0b");
    assert_eq!(s.protocol, "ETH 0x88cc");
    assert_eq!(s.info, "len=5");
    assert_eq!(s.kind, Kind::Other);
}

#[test]
fn tcp_flags_in_order_without_service() {
    let builder = PacketBuilder::ipv4(IP_A, IP_B, 64)
        .tcp(50000, 8443, 1, 100)
        .fin()
        .ack(5)
        .psh();
    let mut bytes = Vec::new();
    builder.write(&mut bytes, &[1, 2, 3]).unwrap();
    let s = decode(linktype::IPV4, &bytes).unwrap();
    assert_eq!(s.info, "[FIN, PSH, ACK] len=3");
    assert_eq!(s.source, "192.168.1.10:50000");
}

#[test]
fn too_short_link_headers_are_skipped() {
    assert_eq!(decode(linktype::NULL, &[2, 0, 0]), None);
    assert_eq!(decode(linktype::LINUX_SLL, &[0; 15]), None);
    assert_eq!(decode(linktype::LINUX_SLL2, &[0x08, 0x00, 0, 0]), None);
    assert_eq!(decode(linktype::RAW, &[]), None);
}

#[test]
fn framing_per_link_type() {
    assert_eq!(framing(linktype::ETHERNET, &[]), Some(Framing::Ethernet));
    assert_eq!(framing(linktype::LOOP, &[0; 4]), Some(Framing::Ip { start: 4 }));
    assert_eq!(framing(linktype::IPV6, &[]), Some(Framing::Ip { start: 0 }));
    let mut sll = vec![0u8; 14];
    sll.extend_from_slice(&[0x86, 0xdd]);
    assert_eq!(
        framing(linktype::LINUX_SLL, &sll),
        Some(Framing::EtherType { ether_type: 0x86dd, start: 16 })
    );
    assert_eq!(framing(linktype::LINUX_SLL2, &[0; 19]), None);
    assert_eq!(framing(42, &[0; 64]), None);
}

#[test]
fn unknown_ether_type_in_cooked_capture() {
    let mut sll = vec![0u8; 14];
    sll.extend_from_slice(&[0x88, 0xcc]);
    sll.extend_from_slice(&[7, 7, 7]);
    let s = decode(linktype::LINUX_SLL, &sll).unwrap();
    assert_eq!(s.source, "?");
    assert_eq!(s.destination, "?");
    assert_eq!(s.protocol, "ETH ?");
    assert_eq!(s.info, "len=3");
    assert_eq!(s.kind, Kind::Other);
}

#[test]
fn loopback_and_raw_frames_decode_alike() {
    let builder = PacketBuilder::ipv4(IP_A, IP_B, 64).udp(40000, 53);
    let mut ip = Vec::new();
    builder.write(&mut ip, &[9, 9]).unwrap();
    let mut looped = vec![2, 0, 0, 0];
    looped.extend_from_slice(&ip);
    let raw = decode(linktype::RAW, &ip);
    assert!(raw.is_some());
    assert_eq!(decode(linktype::NULL, &looped), raw);
    assert_eq!(decode(linktype::LOOP, &looped), raw);
    assert_eq!(decode(linktype::IPV4, &ip), raw);
    assert_eq!(decode(linktype::IPV6, &ip), raw);
}
