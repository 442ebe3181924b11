//! Layered decoding of raw link-layer frames: Ethernet, then IPv4 or
//! IPv6, then enough of TCP or UDP to extract the ports.  Every layer is
//! a pure function over a byte slice; failure at an inner layer degrades
//! the packet to the `Other` category rather than rejecting the frame.

use vstd::prelude::*;
use vstd::slice::slice_subrange;

use crate::addr::IpAddress;
use crate::category::PacketType;
use crate::category::classify_tcp;
use crate::category::classify_udp;
use crate::category::spec_classify_tcp;
use crate::category::spec_classify_udp;
use crate::flows::ConnectionId;

verus! {

/// The recognized network layer of a frame; a frame with any other outer
/// layer is not decoded at all.
#[derive(Debug, Clone, Copy, PartialEq, Eq, Structural)]
pub enum NetworkKind {
    Ipv4,
    Ipv6,
}

/// The transport protocol named by the network header, whether or not the
/// transport header itself could be decoded.
#[derive(Debug, Clone, Copy, PartialEq, Eq, Structural)]
pub enum TransportKind {
    Tcp,
    Udp,
    Icmp,
    Unknown,
}

/// The structured description of one captured frame.
#[derive(Debug, Clone, Copy)]
pub struct DecodedPacket {
    pub network: NetworkKind,
    pub transport: TransportKind,
    pub src_addr: Option<IpAddress>,
    pub dst_addr: Option<IpAddress>,
    pub src_port: Option<u16>,
    pub dst_port: Option<u16>,
    pub category: PacketType,
    /// The full captured length reported by the capture layer, used
    /// verbatim as the byte-count increment.
    pub wire_length: u64,
}

/// A big-endian 16-bit field at byte offset `i`.
pub open spec fn spec_be16(b: Seq<u8>, i: int) -> u16 {
    (b[i] * 256 + b[i + 1]) as u16
}

/// A big-endian 128-bit field at byte offset `i`.
pub open spec fn spec_be128(b: Seq<u8>, i: int) -> u128 {
    (b[i] * 0x1_00000000_00000000_00000000_000000 + b[i + 1] * 0x1_00000000_00000000_00000000_0000
        + b[i + 2] * 0x1_00000000_00000000_00000000_00 + b[i + 3] * 0x1_00000000_00000000_00000000
        + b[i + 4] * 0x1_00000000_00000000_000000 + b[i + 5] * 0x1_00000000_00000000_0000 + b[i + 6]
        * 0x1_00000000_00000000_00 + b[i + 7] * 0x1_00000000_00000000 + b[i + 8]
        * 0x1_00000000_000000 + b[i + 9] * 0x1_00000000_0000 + b[i + 10] * 0x1_00000000_00 + b[i
        + 11] * 0x1_00000000 + b[i + 12] * 0x1_000000 + b[i + 13] * 0x1_0000 + b[i + 14] * 0x1_00
        + b[i + 15]) as u128
}

/// An Ethernet header is 14 bytes: two addresses and the ethertype.
pub open spec fn spec_eth_parses(f: Seq<u8>) -> bool {
    f.len() >= 14
}

/// The ethertype field of an Ethernet frame.
pub open spec fn spec_ethertype(f: Seq<u8>) -> u16 {
    spec_be16(f, 12)
}

/// What follows the Ethernet header.
pub open spec fn spec_eth_payload(f: Seq<u8>) -> Seq<u8> {
    f.subrange(14, f.len() as int)
}

/// The header length an IPv4 header declares, in bytes: four times the
/// low nibble of the first byte.
pub open spec fn spec_ipv4_header_len(b: Seq<u8>) -> int {
    (b[0] % 16) * 4
}

/// An IPv4 header parses when the buffer holds the 20 fixed bytes and the
/// whole declared header.
pub open spec fn spec_ipv4_parses(b: Seq<u8>) -> bool {
    b.len() >= 20 && spec_ipv4_header_len(b) >= 20 && b.len() >= spec_ipv4_header_len(b)
}

/// The protocol field of an IPv4 header.
pub open spec fn spec_ipv4_protocol(b: Seq<u8>) -> u8 {
    b[9]
}

/// The source address of an IPv4 header.
pub open spec fn spec_ipv4_src(b: Seq<u8>) -> IpAddress {
    IpAddress::V4(b[12], b[13], b[14], b[15])
}

/// The destination address of an IPv4 header.
pub open spec fn spec_ipv4_dst(b: Seq<u8>) -> IpAddress {
    IpAddress::V4(b[16], b[17], b[18], b[19])
}

/// What follows the declared IPv4 header.
pub open spec fn spec_ipv4_payload(b: Seq<u8>) -> Seq<u8> {
    b.subrange(spec_ipv4_header_len(b), b.len() as int)
}

/// An IPv6 header is 40 fixed bytes.
pub open spec fn spec_ipv6_parses(b: Seq<u8>) -> bool {
    b.len() >= 40
}

/// The next-header field of an IPv6 header.
pub open spec fn spec_ipv6_next_header(b: Seq<u8>) -> u8 {
    b[6]
}

/// The source address of an IPv6 header.
pub open spec fn spec_ipv6_src(b: Seq<u8>) -> IpAddress {
    IpAddress::V6(spec_be128(b, 8))
}

/// The destination address of an IPv6 header.
pub open spec fn spec_ipv6_dst(b: Seq<u8>) -> IpAddress {
    IpAddress::V6(spec_be128(b, 24))
}

/// What follows the IPv6 header.
pub open spec fn spec_ipv6_payload(b: Seq<u8>) -> Seq<u8> {
    b.subrange(40, b.len() as int)
}

/// A TCP header needs at least its 20 fixed bytes for the ports to count.
pub open spec fn spec_tcp_parses(b: Seq<u8>) -> bool {
    b.len() >= 20
}

/// A UDP header is 8 bytes.
pub open spec fn spec_udp_parses(b: Seq<u8>) -> bool {
    b.len() >= 8
}

/// The decoded description of the IP payload of an IPv4 frame.
pub open spec fn spec_decode_ipv4(b: Seq<u8>, wire_len: u64) -> DecodedPacket {
    if !spec_ipv4_parses(b) {
        DecodedPacket {
            network: NetworkKind::Ipv4,
            transport: TransportKind::Unknown,
            src_addr: None,
            dst_addr: None,
            src_port: None,
            dst_port: None,
            category: PacketType::Other,
            wire_length: wire_len,
        }
    } else {
        let src = spec_ipv4_src(b);
        let dst = spec_ipv4_dst(b);
        let t = spec_ipv4_payload(b);
        if spec_ipv4_protocol(b) == 6 {
            if spec_tcp_parses(t) {
                DecodedPacket {
                    network: NetworkKind::Ipv4,
                    transport: TransportKind::Tcp,
                    src_addr: Some(src),
                    dst_addr: Some(dst),
                    src_port: Some(spec_be16(t, 0)),
                    dst_port: Some(spec_be16(t, 2)),
                    category: spec_classify_tcp(spec_be16(t, 0), spec_be16(t, 2)),
                    wire_length: wire_len,
                }
            } else {
                DecodedPacket {
                    network: NetworkKind::Ipv4,
                    transport: TransportKind::Tcp,
                    src_addr: Some(src),
                    dst_addr: Some(dst),
                    src_port: None,
                    dst_port: None,
                    category: PacketType::Other,
                    wire_length: wire_len,
                }
            }
        } else if spec_ipv4_protocol(b) == 17 {
            if spec_udp_parses(t) {
                DecodedPacket {
                    network: NetworkKind::Ipv4,
                    transport: TransportKind::Udp,
                    src_addr: Some(src),
                    dst_addr: Some(dst),
                    src_port: Some(spec_be16(t, 0)),
                    dst_port: Some(spec_be16(t, 2)),
                    category: spec_classify_udp(spec_be16(t, 0), spec_be16(t, 2)),
                    wire_length: wire_len,
                }
            } else {
                DecodedPacket {
                    network: NetworkKind::Ipv4,
                    transport: TransportKind::Udp,
                    src_addr: Some(src),
                    dst_addr: Some(dst),
                    src_port: None,
                    dst_port: None,
                    category: PacketType::Other,
                    wire_length: wire_len,
                }
            }
        } else if spec_ipv4_protocol(b) == 1 {
            DecodedPacket {
                network: NetworkKind::Ipv4,
                transport: TransportKind::Icmp,
                src_addr: Some(src),
                dst_addr: Some(dst),
                src_port: None,
                dst_port: None,
                category: PacketType::ICMP,
                wire_length: wire_len,
            }
        } else {
            DecodedPacket {
                network: NetworkKind::Ipv4,
                transport: TransportKind::Unknown,
                src_addr: Some(src),
                dst_addr: Some(dst),
                src_port: None,
                dst_port: None,
                category: PacketType::Other,
                wire_length: wire_len,
            }
        }
    }
}

/// The decoded description of the IP payload of an IPv6 frame.  IPv6
/// frames are classified for the category counters; connection tracking
/// deliberately stays IPv4-only.
pub open spec fn spec_decode_ipv6(b: Seq<u8>, wire_len: u64) -> DecodedPacket {
    if !spec_ipv6_parses(b) {
        DecodedPacket {
            network: NetworkKind::Ipv6,
            transport: TransportKind::Unknown,
            src_addr: None,
            dst_addr: None,
            src_port: None,
            dst_port: None,
            category: PacketType::Other,
            wire_length: wire_len,
        }
    } else {
        let src = spec_ipv6_src(b);
        let dst = spec_ipv6_dst(b);
        let t = spec_ipv6_payload(b);
        if spec_ipv6_next_header(b) == 6 {
            if spec_tcp_parses(t) {
                DecodedPacket {
                    network: NetworkKind::Ipv6,
                    transport: TransportKind::Tcp,
                    src_addr: Some(src),
                    dst_addr: Some(dst),
                    src_port: Some(spec_be16(t, 0)),
                    dst_port: Some(spec_be16(t, 2)),
                    category: spec_classify_tcp(spec_be16(t, 0), spec_be16(t, 2)),
                    wire_length: wire_len,
                }
            } else {
                DecodedPacket {
                    network: NetworkKind::Ipv6,
                    transport: TransportKind::Tcp,
                    src_addr: Some(src),
                    dst_addr: Some(dst),
                    src_port: None,
                    dst_port: None,
                    category: PacketType::Other,
                    wire_length: wire_len,
                }
            }
        } else if spec_ipv6_next_header(b) == 17 {
            if spec_udp_parses(t) {
                DecodedPacket {
                    network: NetworkKind::Ipv6,
                    transport: TransportKind::Udp,
                    src_addr: Some(src),
                    dst_addr: Some(dst),
                    src_port: Some(spec_be16(t, 0)),
                    dst_port: Some(spec_be16(t, 2)),
                    category: spec_classify_udp(spec_be16(t, 0), spec_be16(t, 2)),
                    wire_length: wire_len,
                }
            } else {
                DecodedPacket {
                    network: NetworkKind::Ipv6,
                    transport: TransportKind::Udp,
                    src_addr: Some(src),
                    dst_addr: Some(dst),
                    src_port: None,
                    dst_port: None,
                    category: PacketType::Other,
                    wire_length: wire_len,
                }
            }
        } else if spec_ipv6_next_header(b) == 58 {
            DecodedPacket {
                network: NetworkKind::Ipv6,
                transport: TransportKind::Icmp,
                src_addr: Some(src),
                dst_addr: Some(dst),
                src_port: None,
                dst_port: None,
                category: PacketType::ICMP,
                wire_length: wire_len,
            }
        } else {
            DecodedPacket {
                network: NetworkKind::Ipv6,
                transport: TransportKind::Unknown,
                src_addr: Some(src),
                dst_addr: Some(dst),
                src_port: None,
                dst_port: None,
                category: PacketType::Other,
                wire_length: wire_len,
            }
        }
    }
}

/// The decoded description of a whole frame: nothing for a frame too
/// short for an Ethernet header or whose ethertype is neither IPv4 nor
/// IPv6 — such frames are dropped from every metric — otherwise a
/// description whose category falls back to `Other` wherever an inner
/// layer fails.
pub open spec fn spec_decode(f: Seq<u8>, wire_len: u64) -> Option<DecodedPacket> {
    if !spec_eth_parses(f) {
        None
    } else if spec_ethertype(f) == 0x0800 {
        Some(spec_decode_ipv4(spec_eth_payload(f), wire_len))
    } else if spec_ethertype(f) == 0x86DD {
        Some(spec_decode_ipv6(spec_eth_payload(f), wire_len))
    } else {
        None
    }
}

/// The flow identity a decoded packet yields: only TCP and UDP over IPv4
/// are tracked as flows, keyed by both endpoints, both ports, and the
/// derived category.
pub open spec fn spec_flow_of(d: DecodedPacket) -> Option<ConnectionId> {
    match (d.src_addr, d.dst_addr, d.src_port, d.dst_port) {
        (Some(src_ip), Some(dst_ip), Some(src_port), Some(dst_port)) => {
            if d.network == NetworkKind::Ipv4 && (d.transport == TransportKind::Tcp || d.transport
                == TransportKind::Udp) {
                Some(ConnectionId { src_ip, dst_ip, src_port, dst_port, protocol: d.category })
            } else {
                None
            }
        },
        _ => None,
    }
}

/// Whether a decoded packet takes part in region attribution: every
/// packet with a full 4-tuple over a supported transport — TCP or UDP
/// over IPv4 — does.
pub open spec fn spec_geo_eligible(d: DecodedPacket) -> bool {
    d.network == NetworkKind::Ipv4 && (d.transport == TransportKind::Tcp || d.transport
        == TransportKind::Udp) && d.src_addr is Some && d.dst_addr is Some && d.src_port is Some
        && d.dst_port is Some
}

fn be16_at(b: &[u8], i: usize) -> (v: u16)
    requires
        i + 2 <= b@.len(),
    ensures
        v == spec_be16(b@, i as int),
{
    let hi = b[i];
    let lo = b[i + 1];
    (hi as u16) * 256 + (lo as u16)
}

fn be128_at(b: &[u8], i: usize) -> (v: u128)
    requires
        i + 16 <= b@.len(),
    ensures
        v == spec_be128(b@, i as int),
{
    (b[i] as u128) * 0x1_00000000_00000000_00000000_000000 + (b[i + 1] as u128)
        * 0x1_00000000_00000000_00000000_0000 + (b[i + 2] as u128)
        * 0x1_00000000_00000000_00000000_00 + (b[i + 3] as u128) * 0x1_00000000_00000000_00000000
        + (b[i + 4] as u128) * 0x1_00000000_00000000_000000 + (b[i + 5] as u128)
        * 0x1_00000000_00000000_0000 + (b[i + 6] as u128) * 0x1_00000000_00000000_00 + (b[i
        + 7] as u128) * 0x1_00000000_00000000 + (b[i + 8] as u128) * 0x1_00000000_000000 + (b[i
        + 9] as u128) * 0x1_00000000_0000 + (b[i + 10] as u128) * 0x1_00000000_00 + (b[i
        + 11] as u128) * 0x1_00000000 + (b[i + 12] as u128) * 0x1_000000 + (b[i + 13] as u128)
        * 0x1_0000 + (b[i + 14] as u128) * 0x1_00 + (b[i + 15] as u128)
}

fn decode_ipv4(b: &[u8], wire_len: u64) -> (d: DecodedPacket)
    ensures
        d == spec_decode_ipv4(b@, wire_len),
{
    let not_parsed = DecodedPacket {
        network: NetworkKind::Ipv4,
        transport: TransportKind::Unknown,
        src_addr: None,
        dst_addr: None,
        src_port: None,
        dst_port: None,
        category: PacketType::Other,
        wire_length: wire_len,
    };
    if b.len() < 20 {
        return not_parsed;
    }
    let header_len = (b[0] % 16) as usize * 4;
    if header_len < 20 || b.len() < header_len {
        return not_parsed;
    }
    let src = IpAddress::V4(b[12], b[13], b[14], b[15]);
    let dst = IpAddress::V4(b[16], b[17], b[18], b[19]);
    let protocol = b[9];
    let t = slice_subrange(b, header_len, b.len());
    proof {
        assert(t@ =~= spec_ipv4_payload(b@));
    }
    if protocol == 6 {
        if t.len() >= 20 {
            let src_port = be16_at(t, 0);
            let dst_port = be16_at(t, 2);
            DecodedPacket {
                network: NetworkKind::Ipv4,
                transport: TransportKind::Tcp,
                src_addr: Some(src),
                dst_addr: Some(dst),
                src_port: Some(src_port),
                dst_port: Some(dst_port),
                category: classify_tcp(src_port, dst_port),
                wire_length: wire_len,
            }
        } else {
            DecodedPacket {
                network: NetworkKind::Ipv4,
                transport: TransportKind::Tcp,
                src_addr: Some(src),
                dst_addr: Some(dst),
                src_port: None,
                dst_port: None,
                category: PacketType::Other,
                wire_length: wire_len,
            }
        }
    } else if protocol == 17 {
        if t.len() >= 8 {
            let src_port = be16_at(t, 0);
            let dst_port = be16_at(t, 2);
            DecodedPacket {
                network: NetworkKind::Ipv4,
                transport: TransportKind::Udp,
                src_addr: Some(src),
                dst_addr: Some(dst),
                src_port: Some(src_port),
                dst_port: Some(dst_port),
                category: classify_udp(src_port, dst_port),
                wire_length: wire_len,
            }
        } else {
            DecodedPacket {
                network: NetworkKind::Ipv4,
                transport: TransportKind::Udp,
                src_addr: Some(src),
                dst_addr: Some(dst),
                src_port: None,
                dst_port: None,
                category: PacketType::Other,
                wire_length: wire_len,
            }
        }
    } else if protocol == 1 {
        DecodedPacket {
            network: NetworkKind::Ipv4,
            transport: TransportKind::Icmp,
            src_addr: Some(src),
            dst_addr: Some(dst),
            src_port: None,
            dst_port: None,
            category: PacketType::ICMP,
            wire_length: wire_len,
        }
    } else {
        DecodedPacket {
            network: NetworkKind::Ipv4,
            transport: TransportKind::Unknown,
            src_addr: Some(src),
            dst_addr: Some(dst),
            src_port: None,
            dst_port: None,
            category: PacketType::Other,
            wire_length: wire_len,
        }
    }
}

fn decode_ipv6(b: &[u8], wire_len: u64) -> (d: DecodedPacket)
    ensures
        d == spec_decode_ipv6(b@, wire_len),
{
    if b.len() < 40 {
        return DecodedPacket {
            network: NetworkKind::Ipv6,
            transport: TransportKind::Unknown,
            src_addr: None,
            dst_addr: None,
            src_port: None,
            dst_port: None,
            category: PacketType::Other,
            wire_length: wire_len,
        };
    }
    let src = IpAddress::V6(be128_at(b, 8));
    let dst = IpAddress::V6(be128_at(b, 24));
    let next_header = b[6];
    let t = slice_subrange(b, 40, b.len());
    proof {
        assert(t@ =~= spec_ipv6_payload(b@));
    }
    if next_header == 6 {
        if t.len() >= 20 {
            let src_port = be16_at(t, 0);
            let dst_port = be16_at(t, 2);
            DecodedPacket {
                network: NetworkKind::Ipv6,
                transport: TransportKind::Tcp,
                src_addr: Some(src),
                dst_addr: Some(dst),
                src_port: Some(src_port),
                dst_port: Some(dst_port),
                category: classify_tcp(src_port, dst_port),
                wire_length: wire_len,
            }
        } else {
            DecodedPacket {
                network: NetworkKind::Ipv6,
                transport: TransportKind::Tcp,
                src_addr: Some(src),
                dst_addr: Some(dst),
                src_port: None,
                dst_port: None,
                category: PacketType::Other,
                wire_length: wire_len,
            }
        }
    } else if next_header == 17 {
        if t.len() >= 8 {
            let src_port = be16_at(t, 0);
            let dst_port = be16_at(t, 2);
            DecodedPacket {
                network: NetworkKind::Ipv6,
                transport: TransportKind::Udp,
                src_addr: Some(src),
                dst_addr: Some(dst),
                src_port: Some(src_port),
                dst_port: Some(dst_port),
                category: classify_udp(src_port, dst_port),
                wire_length: wire_len,
            }
        } else {
            DecodedPacket {
                network: NetworkKind::Ipv6,
                transport: TransportKind::Udp,
                src_addr: Some(src),
                dst_addr: Some(dst),
                src_port: None,
                dst_port: None,
                category: PacketType::Other,
                wire_length: wire_len,
            }
        }
    } else if next_header == 58 {
        DecodedPacket {
            network: NetworkKind::Ipv6,
            transport: TransportKind::Icmp,
            src_addr: Some(src),
            dst_addr: Some(dst),
            src_port: None,
            dst_port: None,
            category: PacketType::ICMP,
            wire_length: wire_len,
        }
    } else {
        DecodedPacket {
            network: NetworkKind::Ipv6,
            transport: TransportKind::Unknown,
            src_addr: Some(src),
            dst_addr: Some(dst),
            src_port: None,
            dst_port: None,
            category: PacketType::Other,
            wire_length: wire_len,
        }
    }
}

/// Decodes one captured frame.  A frame whose outer layer cannot be
/// identified — too short for an Ethernet header, or an ethertype other
/// than IPv4 and IPv6 — yields nothing and is dropped from every metric;
/// every other frame yields a description, with the category degraded to
/// `Other` where an inner layer fails to parse.
pub fn decode_frame(frame: &[u8], wire_len: u64) -> (r: Option<DecodedPacket>)
    ensures
        r == spec_decode(frame@, wire_len),
{
    if frame.len() < 14 {
        return None;
    }
    let ethertype = be16_at(frame, 12);
    let payload = slice_subrange(frame, 14, frame.len());
    proof {
        assert(payload@ =~= spec_eth_payload(frame@));
    }
    if ethertype == 0x0800 {
        Some(decode_ipv4(payload, wire_len))
    } else if ethertype == 0x86DD {
        Some(decode_ipv6(payload, wire_len))
    } else {
        None
    }
}

impl DecodedPacket {
    /// The flow identity this packet contributes to, if it is tracked.
    pub fn flow_id(&self) -> (r: Option<ConnectionId>)
        ensures
            r == spec_flow_of(*self),
    {
        match (self.network, self.transport) {
            (NetworkKind::Ipv4, TransportKind::Tcp) | (NetworkKind::Ipv4, TransportKind::Udp) => {
                match (self.src_addr, self.dst_addr, self.src_port, self.dst_port) {
                    (Some(src_ip), Some(dst_ip), Some(src_port), Some(dst_port)) => Some(
                        ConnectionId {
                            src_ip,
                            dst_ip,
                            src_port,
                            dst_port,
                            protocol: self.category,
                        },
                    ),
                    _ => None,
                }
            },
            _ => None,
        }
    }

    /// Whether this packet takes part in region attribution.
    pub fn geo_eligible(&self) -> (r: bool)
        ensures
            r == spec_geo_eligible(*self),
    {
        match (self.network, self.transport) {
            (NetworkKind::Ipv4, TransportKind::Tcp) | (NetworkKind::Ipv4, TransportKind::Udp) => {
                self.src_addr.is_some() && self.dst_addr.is_some() && self.src_port.is_some()
                    && self.dst_port.is_some()
            },
            _ => false,
        }
    }
}

/// Law: a packet eligible for region attribution always carries a flow
/// identity, and a tracked flow is always an IPv4 TCP or UDP packet whose
/// category the classification rules produced from its own ports.
pub proof fn lemma_flow_consistent(f: Seq<u8>, wire_len: u64)
    requires
        spec_decode(f, wire_len) is Some,
    ensures
        spec_geo_eligible(spec_decode(f, wire_len).unwrap()) ==> spec_flow_of(
            spec_decode(f, wire_len).unwrap(),
        ) is Some,
        match spec_flow_of(spec_decode(f, wire_len).unwrap()) {
            Some(id) => {
                &&& id.src_ip is V4
                &&& id.dst_ip is V4
                &&& (id.protocol == spec_classify_tcp(id.src_port, id.dst_port) || id.protocol
                    == spec_classify_udp(id.src_port, id.dst_port))
            },
            None => true,
        },
{
}

} // verus!
