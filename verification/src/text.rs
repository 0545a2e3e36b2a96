//! Text building blocks: decimal and hexadecimal numbers, addresses and ports.

use vstd::prelude::*;

verus! {

/// The character of a decimal digit.
pub open spec fn dec_digit(d: nat) -> char {
    ((48 + d) as u8) as char
}

/// The character of a lowercase hexadecimal digit.
pub open spec fn hex_digit(d: nat) -> char {
    if d < 10 {
        ((48 + d) as u8) as char
    } else {
        ((87 + d) as u8) as char
    }
}

/// `n` in decimal, without leading zeros (`"0"` for zero).
pub open spec fn dec_text(n: nat) -> Seq<char>
    decreases n,
{
    if n < 10 {
        seq![dec_digit(n)]
    } else {
        dec_text(n / 10).push(dec_digit(n % 10))
    }
}

/// `n` in lowercase hexadecimal, padded with zeros to at least `width` digits.
pub open spec fn hex_text(n: nat, width: nat) -> Seq<char>
    decreases n + width,
{
    if n < 16 && width <= 1 {
        seq![hex_digit(n)]
    } else {
        let w: nat = if width == 0 { 0 } else { (width - 1) as nat };
        hex_text(n / 16, w).push(hex_digit(n % 16))
    }
}

/// `n` in decimal.
pub open spec fn dec_u8(n: u8) -> Seq<char> {
    dec_text(n as nat)
}

/// `n` in decimal.
pub open spec fn dec_u16(n: u16) -> Seq<char> {
    dec_text(n as nat)
}

/// `n` in decimal.
pub open spec fn dec_usize(n: usize) -> Seq<char> {
    dec_text(n as nat)
}

/// `n` in lowercase hexadecimal with at least `width` digits.
pub open spec fn hex_u16(n: u16, width: nat) -> Seq<char> {
    hex_text(n as nat, width)
}

/// Appends one character (`String::push`).
#[verifier::external_body]
pub(crate) fn push_char(s: &mut String, c: char)
    ensures
        final(s)@ == old(s)@.push(c),
{
    s.push(c);
}

fn digit_char(d: u8) -> (c: char)
    requires
        d < 10,
    ensures
        c == dec_digit(d as nat),
{
    (48 + d) as char
}

fn hex_digit_char(d: u8) -> (c: char)
    requires
        d < 16,
    ensures
        c == hex_digit(d as nat),
{
    if d < 10 {
        (48 + d) as char
    } else {
        (87 + d) as char
    }
}

/// Appends `n` in decimal.
pub(crate) fn push_decimal(s: &mut String, n: u64)
    ensures
        final(s)@ == old(s)@ + dec_text(n as nat),
    decreases n,
{
    if n >= 10 {
        push_decimal(s, n / 10);
    }
    let d: u8 = (n % 10) as u8;
    push_char(s, digit_char(d));
    assert(dec_text(n as nat) == if n < 10 { seq![dec_digit(n as nat)] } else {
        dec_text((n / 10) as nat).push(dec_digit((n % 10) as nat))
    });
}

/// Appends a byte in decimal.
pub(crate) fn push_dec_u8(s: &mut String, n: u8)
    ensures
        final(s)@ == old(s)@ + dec_u8(n),
{
    push_decimal(s, n as u64);
}

/// Appends a 16-bit number in decimal.
pub(crate) fn push_dec_u16(s: &mut String, n: u16)
    ensures
        final(s)@ == old(s)@ + dec_u16(n),
{
    push_decimal(s, n as u64);
}

/// Appends a length in decimal.
pub(crate) fn push_dec_usize(s: &mut String, n: usize)
    ensures
        final(s)@ == old(s)@ + dec_usize(n),
{
    push_decimal(s, n as u64);
}

/// Appends a 16-bit number in lowercase hexadecimal with at least `width` digits.
pub(crate) fn push_hex_u16(s: &mut String, n: u16, width: u64)
    ensures
        final(s)@ == old(s)@ + hex_u16(n, width as nat),
{
    push_hex(s, n as u64, width);
}

/// Appends `n` in lowercase hexadecimal with at least `width` digits.
pub(crate) fn push_hex(s: &mut String, n: u64, width: u64)
    ensures
        final(s)@ == old(s)@ + hex_text(n as nat, width as nat),
    decreases n + width,
{
    if !(n < 16 && width <= 1) {
        let w: u64 = if width == 0 { 0 } else { width - 1 };
        push_hex(s, n / 16, w);
    }
    let d: u8 = (n % 16) as u8;
    push_char(s, hex_digit_char(d));
}


/// The bytes in two-digit lowercase hexadecimal, separated by `sep`.
pub open spec fn hex_join(bytes: Seq<u8>, sep: char) -> Seq<char>
    decreases bytes.len(),
{
    if bytes.len() == 0 {
        seq![]
    } else if bytes.len() == 1 {
        hex_text(bytes[0] as nat, 2)
    } else {
        hex_join(bytes.drop_last(), sep).push(sep) + hex_text(bytes.last() as nat, 2)
    }
}

/// Dotted-decimal form of an IPv4 address (`192.168.1.10`).
pub open spec fn ipv4_text(a: Seq<u8>) -> Seq<char> {
    dec_text(a[0] as nat) + seq!['.'] + dec_text(a[1] as nat) + seq!['.'] + dec_text(a[2] as nat)
        + seq!['.'] + dec_text(a[3] as nat)
}

/// A MAC address as six two-digit hex bytes joined by colons (`02:00:00:00:00:0a`).
pub open spec fn mac_text(b: Seq<u8>) -> Seq<char> {
    hex_join(b, ':')
}

/// An address followed by a port: `addr:port`, or `[addr]:port` for IPv6.
pub open spec fn with_port_text(address: Seq<char>, port: u16, is_ipv6: bool) -> Seq<char> {
    if is_ipv6 {
        seq!['['] + address + seq![']', ':'] + dec_text(port as nat)
    } else {
        address + seq![':'] + dec_text(port as nat)
    }
}

/// The text of an IPv6 address as the standard library displays it.
pub uninterp spec fn ipv6_text(octets: Seq<u8>) -> Seq<char>;

/// Appends the two-digit hex bytes of `bytes`, separated by `sep`.
pub(crate) fn push_hex_join(s: &mut String, bytes: &[u8], sep: char)
    ensures
        final(s)@ == old(s)@ + hex_join(bytes@, sep),
{
    let ghost start = s@;
    let mut i: usize = 0;
    while i < bytes.len()
        invariant
            i <= bytes@.len(),
            s@ == start + hex_join(bytes@.take(i as int), sep),
        decreases bytes@.len() - i,
    {
        let ghost before = s@;
        if i > 0 {
            push_char(s, sep);
        }
        push_hex(s, bytes[i] as u64, 2);
        proof {
            let t = bytes@.take(i + 1);
            assert(t.drop_last() =~= bytes@.take(i as int));
            assert(t.last() == bytes@[i as int]);
            if i == 0 {
                assert(bytes@.take(0) =~= Seq::<u8>::empty());
                assert(s@ =~= start + hex_join(t, sep));
            } else {
                assert(s@ =~= start + hex_join(t, sep));
            }
        }
        i = i + 1;
    }
    assert(bytes@.take(bytes@.len() as int) =~= bytes@);
}

/// Appends an IPv4 address in dotted-decimal form.
pub(crate) fn push_ipv4(s: &mut String, a: &[u8; 4])
    ensures
        final(s)@ == old(s)@ + ipv4_text(a@),
{
    let ghost start = s@;
    push_decimal(s, a[0] as u64);
    push_char(s, '.');
    push_decimal(s, a[1] as u64);
    push_char(s, '.');
    push_decimal(s, a[2] as u64);
    push_char(s, '.');
    push_decimal(s, a[3] as u64);
    assert(s@ =~= start + ipv4_text(a@));
}

/// The IPv4 address in dotted-decimal form.
pub fn ipv4_string(a: &[u8; 4]) -> (r: String)
    ensures
        r@ == ipv4_text(a@),
{
    let mut s = String::new();
    push_ipv4(&mut s, a);
    assert(s@ =~= ipv4_text(a@));
    s
}

/// The IPv6 address as `std` displays it (`Ipv6Addr`'s `Display`, the text form of
/// RFC 5952, which is never empty).
#[verifier::external_body]
pub fn ipv6_string(octets: [u8; 16]) -> (r: String)
    ensures
        r@ == ipv6_text(octets@),
        r@.len() > 0,
{
    core::net::Ipv6Addr::from(octets).to_string()
}

/// A MAC address as colon-separated lowercase hex bytes.
pub fn mac(bytes: &[u8; 6]) -> (r: String)
    ensures
        r@ == mac_text(bytes@),
{
    let mut s = String::new();
    push_hex_join(&mut s, bytes.as_slice(), ':');
    assert(s@ =~= mac_text(bytes@));
    s
}

/// `address:port`, with the address in brackets for IPv6.
pub fn with_port(address: &str, port: u16, is_ipv6: bool) -> (r: String)
    ensures
        r@ == with_port_text(address@, port, is_ipv6),
{
    let mut s = String::new();
    if is_ipv6 {
        push_char(&mut s, '[');
        s.append(address);
        push_char(&mut s, ']');
    } else {
        s.append(address);
    }
    push_char(&mut s, ':');
    push_decimal(&mut s, port as u64);
    assert(s@ =~= with_port_text(address@, port, is_ipv6));
    s
}

/// Name of the well-known service on a port, if any.
pub open spec fn port_service(port: u16) -> Option<&'static str> {
    if port == 22 {
        Some("SSH")
    } else if port == 53 {
        Some("DNS")
    } else if port == 67 || port == 68 {
        Some("DHCP")
    } else if port == 80 {
        Some("HTTP")
    } else if port == 123 {
        Some("NTP")
    } else if port == 443 {
        Some("HTTPS")
    } else if port == 1900 {
        Some("SSDP")
    } else if port == 5353 {
        Some("mDNS")
    } else {
        None
    }
}

/// The service on the destination port, else the one on the source port.
pub open spec fn service_of(source_port: u16, destination_port: u16) -> Option<&'static str> {
    match port_service(destination_port) {
        Some(name) => Some(name),
        None => port_service(source_port),
    }
}

fn port_name(port: u16) -> (r: Option<&'static str>)
    ensures
        r == port_service(port),
{
    match port {
        22 => Some("SSH"),
        53 => Some("DNS"),
        67 | 68 => Some("DHCP"),
        80 => Some("HTTP"),
        123 => Some("NTP"),
        443 => Some("HTTPS"),
        1900 => Some("SSDP"),
        5353 => Some("mDNS"),
        _ => None,
    }
}

/// Name of a well-known service on either port, the destination port first.
pub fn service(source_port: u16, destination_port: u16) -> (r: Option<&'static str>)
    ensures
        r == service_of(source_port, destination_port),
{
    match port_name(destination_port) {
        Some(name) => Some(name),
        None => port_name(source_port),
    }
}

} // verus!
