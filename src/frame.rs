use vstd::prelude::*;

use crate::encoding::{
    base64_of, call_base64_encode, call_hex_encode, hex_decoded, hex_digits, hex_of,
    lemma_hex_round_trip,
};
use crate::protocol::{
    get_next_level_protocol, identify_tcp_application, identify_udp_application, protocol_name,
    tcp_service_name, udp_service_name, TCP, UDP,
};

verus! {

/// EtherType of an IPv4 datagram.
pub const ETHERTYPE_IPV4: u16 = 0x0800;

/// EtherType of an IPv6 datagram.
pub const ETHERTYPE_IPV6: u16 = 0x86dd;

/// One decoded frame, as it is stored.
#[derive(Debug)]
pub struct PacketData {
    /// Capture time, RFC 3339.
    pub timestamp: String,
    /// "IPv4" or "IPv6".
    pub packet_type: String,
    pub source: String,
    pub destination: String,
    /// Label of the transport protocol number.
    pub protocol: Option<String>,
    pub payload_base64: String,
    pub payload_hex: String,
    pub payload_raw: Vec<u8>,
    /// Display text of the payload; replacement characters stand for invalid UTF-8.
    pub payload_string: String,
}

/// Text of an IPv6 address given by its sixteen bytes, as std's `Ipv6Addr` displays it.
pub uninterp spec fn ipv6_text(addr: Seq<u8>) -> Seq<char>;

/// Text of a byte sequence read as UTF-8, with U+FFFD in place of invalid sequences.
pub uninterp spec fn utf8_lossy(b: Seq<u8>) -> Seq<char>;

/// Big-endian 16-bit value of two bytes.
pub open spec fn be16(hi: u8, lo: u8) -> u16 {
    (hi as int * 256 + lo as int) as u16
}

/// Decimal digits of a natural number, without leading zeros.
pub open spec fn decimal(n: nat) -> Seq<char>
    decreases n,
{
    if n < 10 {
        seq![hex_digits()[n as int]]
    } else {
        decimal(n / 10).push(hex_digits()[(n % 10) as int])
    }
}

/// Dotted-quad text of a four-byte IPv4 address.
pub open spec fn dotted_quad(a: Seq<u8>) -> Seq<char> {
    decimal(a[0] as nat) + seq!['.'] + decimal(a[1] as nat) + seq!['.'] + decimal(a[2] as nat)
        + seq!['.'] + decimal(a[3] as nat)
}

/// EtherType field of an Ethernet frame.
pub open spec fn ether_type(frame: Seq<u8>) -> u16 {
    be16(frame[12], frame[13])
}

/// Bytes after the Ethernet header.
pub open spec fn ethernet_payload(frame: Seq<u8>) -> Seq<u8> {
    frame.subrange(14, frame.len() as int)
}

/// Payload of an IPv4 datagram: it starts after the header (at least 20 bytes, more with
/// options) and runs for `total length - header length` bytes, cut at the end of the buffer.
pub open spec fn ipv4_payload(b: Seq<u8>) -> Seq<u8> {
    let header = (b[0] % 16) as int * 4;
    let start = if header > 20 {
        header
    } else {
        20
    };
    let total = be16(b[2], b[3]) as int;
    let length = if total > header {
        total - header
    } else {
        0
    };
    let end = if start + length < b.len() {
        start + length
    } else {
        b.len() as int
    };
    if b.len() <= start {
        Seq::empty()
    } else {
        b.subrange(start, end)
    }
}

/// Payload of an IPv6 datagram: the bytes after the 40-byte header, as many as the
/// payload-length field gives, cut at the end of the buffer.
pub open spec fn ipv6_payload(b: Seq<u8>) -> Seq<u8> {
    let end = if 40 + be16(b[4], b[5]) < b.len() {
        40 + be16(b[4], b[5])
    } else {
        b.len() as int
    };
    if b.len() <= 40 {
        Seq::empty()
    } else {
        b.subrange(40, end)
    }
}

/// The record holds these header values, and a payload in its four encodings.
pub open spec fn record_holds(
    d: PacketData,
    timestamp: Seq<char>,
    kind: Seq<char>,
    source: Seq<char>,
    destination: Seq<char>,
    protocol: u8,
    payload: Seq<u8>,
) -> bool {
    &&& d.timestamp@ == timestamp
    &&& d.packet_type@ == kind
    &&& d.source@ == source
    &&& d.destination@ == destination
    &&& d.protocol matches Some(p) && p@ == protocol_name(protocol)
    &&& d.payload_raw@ == payload
    &&& d.payload_hex@ == hex_of(payload)
    &&& d.payload_base64@ == base64_of(payload)
    &&& d.payload_string@ == utf8_lossy(payload)
}

/// The record of an IPv4 datagram.
pub open spec fn ipv4_record(d: PacketData, packet: Seq<u8>, timestamp: Seq<char>) -> bool {
    record_holds(
        d,
        timestamp,
        "IPv4"@,
        dotted_quad(packet.subrange(12, 16)),
        dotted_quad(packet.subrange(16, 20)),
        packet[9],
        ipv4_payload(packet),
    )
}

/// The record of an IPv6 datagram.
pub open spec fn ipv6_record(d: PacketData, packet: Seq<u8>, timestamp: Seq<char>) -> bool {
    record_holds(
        d,
        timestamp,
        "IPv6"@,
        ipv6_text(packet.subrange(8, 24)),
        ipv6_text(packet.subrange(24, 40)),
        packet[6],
        ipv6_payload(packet),
    )
}

/// A frame that decodes to a record: an IPv4 or IPv6 EtherType and a full network header.
pub open spec fn frame_decodes(frame: Seq<u8>) -> bool {
    &&& frame.len() >= 14
    &&& (ether_type(frame) == ETHERTYPE_IPV4 && frame.len() >= 14 + 20) || (ether_type(frame)
        == ETHERTYPE_IPV6 && frame.len() >= 14 + 40)
}

/// The record of a frame.
pub open spec fn frame_record(d: PacketData, frame: Seq<u8>, timestamp: Seq<char>) -> bool {
    if ether_type(frame) == ETHERTYPE_IPV4 {
        ipv4_record(d, ethernet_payload(frame), timestamp)
    } else {
        ipv6_record(d, ethernet_payload(frame), timestamp)
    }
}

/// Header values of an IP datagram, addresses already in text form.
struct IpHeader {
    protocol: u8,
    source: String,
    destination: String,
    payload: Vec<u8>,
}

/// Relies on pnet's EthernetPacket: `new` takes a buffer of at least the 14-byte header,
/// `get_ethertype` reads bytes 12..14 big-endian, `payload` is the rest.
#[verifier::external_body]
fn parse_ethernet(frame: &[u8]) -> (r: Option<(u16, Vec<u8>)>)
    ensures
        r is Some <==> frame@.len() >= 14,
        r matches Some((t, p)) ==> t == ether_type(frame@) && p@ == ethernet_payload(frame@),
{
    match pnet::packet::ethernet::EthernetPacket::new(frame) {
        Some(p) => Some((p.get_ethertype().0, pnet::packet::Packet::payload(&p).to_vec())),
        None => None,
    }
}

/// Relies on pnet's Ipv4Packet: `new` takes a buffer of at least 20 bytes; the protocol is
/// byte 9, the addresses bytes 12..16 and 16..20; `payload` has the bounds of `ipv4_payload`.
#[verifier::external_body]
fn parse_ipv4(b: &[u8]) -> (r: Option<(u8, Vec<u8>, Vec<u8>, Vec<u8>)>)
    ensures
        r is Some <==> b@.len() >= 20,
        r matches Some((protocol, source, destination, payload)) ==> {
            &&& protocol == b@[9]
            &&& source@ == b@.subrange(12, 16)
            &&& destination@ == b@.subrange(16, 20)
            &&& payload@ == ipv4_payload(b@)
        },
{
    match pnet::packet::ipv4::Ipv4Packet::new(b) {
        Some(p) => Some((
            p.get_next_level_protocol().0,
            p.get_source().octets().to_vec(),
            p.get_destination().octets().to_vec(),
            pnet::packet::Packet::payload(&p).to_vec(),
        )),
        None => None,
    }
}

pub(crate) fn digit_text(d: u8) -> (r: &'static str)
    requires
        d < 10,
    ensures
        r@ == seq![hex_digits()[d as int]],
{
    proof {
        reveal_strlit("0");
        reveal_strlit("1");
        reveal_strlit("2");
        reveal_strlit("3");
        reveal_strlit("4");
        reveal_strlit("5");
        reveal_strlit("6");
        reveal_strlit("7");
        reveal_strlit("8");
        reveal_strlit("9");
    }
    match d {
        0 => "0",
        1 => "1",
        2 => "2",
        3 => "3",
        4 => "4",
        5 => "5",
        6 => "6",
        7 => "7",
        8 => "8",
        _ => "9",
    }
}

fn append_decimal(s: &mut String, n: u8)
    ensures
        final(s)@ == old(s)@ + decimal(n as nat),
{
    let ghost start = s@;
    if n >= 100 {
        s.append(digit_text(n / 100));
        s.append(digit_text((n / 10) % 10));
        proof {
            assert(decimal((n / 10) as nat) =~= decimal((n / 100) as nat).push(
                hex_digits()[((n / 10) % 10) as int],
            ));
        }
    } else if n >= 10 {
        s.append(digit_text(n / 10));
    }
    s.append(digit_text(n % 10));
    proof {
        if n >= 10 {
            assert(decimal(n as nat) == decimal((n / 10) as nat).push(hex_digits()[(n % 10) as int]));
        }
        assert(s@ =~= start + decimal(n as nat));
    }
}

/// Dotted-quad text of a four-byte address.
fn dotted_quad_text(a: &Vec<u8>) -> (r: String)
    requires
        a@.len() == 4,
    ensures
        r@ == dotted_quad(a@),
{
    proof {
        reveal_strlit(".");
    }
    let mut s = String::new();
    append_decimal(&mut s, a[0]);
    s.append(".");
    append_decimal(&mut s, a[1]);
    s.append(".");
    append_decimal(&mut s, a[2]);
    s.append(".");
    append_decimal(&mut s, a[3]);
    proof {
        assert(s@ =~= dotted_quad(a@));
    }
    s
}

/// Relies on pnet's Ipv6Packet (`new` takes a buffer of at least 40 bytes; next header at
/// byte 6, addresses at 8..24 and 24..40; the payload bounds of its `payload`), and on
/// std's display of `Ipv6Addr`, which is never empty.
#[verifier::external_body]
fn parse_ipv6(b: &[u8]) -> (r: Option<IpHeader>)
    ensures
        r is Some <==> b@.len() >= 40,
        r matches Some(h) ==> {
            &&& h.protocol == b@[6]
            &&& h.source@ == ipv6_text(b@.subrange(8, 24))
            &&& h.destination@ == ipv6_text(b@.subrange(24, 40))
            &&& h.source@.len() > 0
            &&& h.destination@.len() > 0
            &&& h.payload@ == ipv6_payload(b@)
        },
{
    match pnet::packet::ipv6::Ipv6Packet::new(b) {
        Some(p) => Some(
            IpHeader {
                protocol: p.get_next_header().0,
                source: p.get_source().to_string(),
                destination: p.get_destination().to_string(),
                payload: pnet::packet::Packet::payload(&p).to_vec(),
            },
        ),
        None => None,
    }
}

/// Relies on pnet's TcpPacket: `new` takes a buffer of at least 20 bytes; the ports are
/// bytes 0..2 and 2..4, big-endian.
#[verifier::external_body]
fn parse_tcp_ports(b: &[u8]) -> (r: Option<(u16, u16)>)
    ensures
        r is Some <==> b@.len() >= 20,
        r matches Some((s, d)) ==> s == be16(b@[0], b@[1]) && d == be16(b@[2], b@[3]),
{
    match pnet::packet::tcp::TcpPacket::new(b) {
        Some(p) => Some((p.get_source(), p.get_destination())),
        None => None,
    }
}

/// Relies on pnet's UdpPacket: `new` takes a buffer of at least 8 bytes; the ports are
/// bytes 0..2 and 2..4, big-endian.
#[verifier::external_body]
fn parse_udp_ports(b: &[u8]) -> (r: Option<(u16, u16)>)
    ensures
        r is Some <==> b@.len() >= 8,
        r matches Some((s, d)) ==> s == be16(b@[0], b@[1]) && d == be16(b@[2], b@[3]),
{
    match pnet::packet::udp::UdpPacket::new(b) {
        Some(p) => Some((p.get_source(), p.get_destination())),
        None => None,
    }
}

/// Relies on std's `String::from_utf8_lossy`.
#[verifier::external_body]
fn lossy_text(b: &[u8]) -> (r: String)
    ensures
        r@ == utf8_lossy(b@),
{
    String::from_utf8_lossy(b).into_owned()
}

fn build_record(timestamp: &str, kind: &str, h: IpHeader) -> (d: PacketData)
    ensures
        record_holds(d, timestamp@, kind@, h.source@, h.destination@, h.protocol, h.payload@),
{
    let label = get_next_level_protocol(h.protocol);
    let payload_base64 = call_base64_encode(h.payload.as_slice());
    let payload_hex = call_hex_encode(h.payload.as_slice());
    let payload_string = lossy_text(h.payload.as_slice());
    PacketData {
        timestamp: String::from_str(timestamp),
        packet_type: String::from_str(kind),
        source: h.source,
        destination: h.destination,
        protocol: Some(String::from_str(label)),
        payload_base64,
        payload_hex,
        payload_raw: h.payload,
        payload_string,
    }
}

/// Record of an IPv4 datagram; `None` where the buffer is shorter than its header.
pub fn handle_ipv4_packets(packet: &[u8], timestamp: &str) -> (r: Option<PacketData>)
    ensures
        r is Some <==> packet@.len() >= 20,
        r matches Some(d) ==> ipv4_record(d, packet@, timestamp@),
        r matches Some(d) ==> d.source@.len() > 0 && d.destination@.len() > 0,
{
    proof {
        if packet@.len() >= 20 {
            lemma_dotted_quad_not_empty(packet@.subrange(12, 16));
            lemma_dotted_quad_not_empty(packet@.subrange(16, 20));
        }
    }
    match parse_ipv4(packet) {
        Some((protocol, source, destination, payload)) => {
            let h = IpHeader {
                protocol,
                source: dotted_quad_text(&source),
                destination: dotted_quad_text(&destination),
                payload,
            };
            Some(build_record(timestamp, "IPv4", h))
        },
        None => None,
    }
}

/// Record of an IPv6 datagram; `None` where the buffer is shorter than its header.
pub fn handle_ipv6_packets(packet: &[u8], timestamp: &str) -> (r: Option<PacketData>)
    ensures
        r is Some <==> packet@.len() >= 40,
        r matches Some(d) ==> ipv6_record(d, packet@, timestamp@),
        r matches Some(d) ==> d.source@.len() > 0 && d.destination@.len() > 0,
{
    match parse_ipv6(packet) {
        Some(h) => Some(build_record(timestamp, "IPv6", h)),
        None => None,
    }
}

/// Record of an Ethernet frame: one for an IPv4 or IPv6 frame with a full network header,
/// none for any other. Its addresses are those of the network header.
pub fn handle_ethernet_packets(frame: &[u8], timestamp: &str) -> (r: Option<PacketData>)
    ensures
        r is Some <==> frame_decodes(frame@),
        r matches Some(d) ==> frame_record(d, frame@, timestamp@),
        r matches Some(d) ==> d.source@.len() > 0 && d.destination@.len() > 0,
{
    match parse_ethernet(frame) {
        Some((ethertype, payload)) => {
            if ethertype == ETHERTYPE_IPV4 {
                handle_ipv4_packets(payload.as_slice(), timestamp)
            } else if ethertype == ETHERTYPE_IPV6 {
                handle_ipv6_packets(payload.as_slice(), timestamp)
            } else {
                None
            }
        },
        None => None,
    }
}

/// Service label of a transport segment by its destination port, for TCP and UDP only.
pub fn identify_application_layer_protocol(segment: &[u8], protocol: u8) -> (r: Option<
    &'static str,
>)
    ensures
        r is Some <==> (protocol == TCP && segment@.len() >= 20) || (protocol == UDP
            && segment@.len() >= 8),
        protocol == TCP && segment@.len() >= 20 ==> (r matches Some(s) && s@ == tcp_service_name(
            be16(segment@[2], segment@[3]),
        )),
        protocol == UDP && segment@.len() >= 8 ==> (r matches Some(s) && s@ == udp_service_name(
            be16(segment@[2], segment@[3]),
        )),
{
    if protocol == TCP {
        match parse_tcp_ports(segment) {
            Some((src_port, dst_port)) => identify_tcp_application(src_port, dst_port),
            None => None,
        }
    } else if protocol == UDP {
        match parse_udp_ports(segment) {
            Some((src_port, dst_port)) => identify_udp_application(src_port, dst_port),
            None => None,
        }
    } else {
        None
    }
}

proof fn lemma_decimal_not_empty(n: nat)
    ensures
        decimal(n).len() > 0,
    decreases n,
{
    if n >= 10 {
        lemma_decimal_not_empty(n / 10);
    }
}

proof fn lemma_dotted_quad_not_empty(a: Seq<u8>)
    requires
        a.len() == 4,
    ensures
        dotted_quad(a).len() > 0,
{
    lemma_decimal_not_empty(a[0] as nat);
}

/// The hexadecimal payload of every decoded record gives back its raw payload.
pub proof fn lemma_record_payload_round_trips(d: PacketData, frame: Seq<u8>, timestamp: Seq<char>)
    requires
        frame_decodes(frame),
        frame_record(d, frame, timestamp),
    ensures
        hex_decoded(d.payload_hex@) == Some(d.payload_raw@),
        d.payload_base64@ == base64_of(d.payload_raw@),
{
    lemma_hex_round_trip(d.payload_raw@);
}

} // verus!
