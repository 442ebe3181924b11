//! Service categories and the port-based classification rules.

use vstd::prelude::*;

verus! {

/// The service category derived for a packet from its transport protocol
/// and its well-known ports.
#[allow(non_camel_case_types)]
#[derive(Debug, Clone, Copy, PartialEq, Eq, Structural)]
pub enum PacketType {
    TCP_HTTP,
    TCP_HTTPS,
    TCP_SSH,
    TCP_DNS,
    TCP_Other,
    UDP_DNS,
    UDP_DHCP,
    UDP_Other,
    ICMP,
    Other,
}

/// The coarse rollup of a service category.
#[derive(Debug, Clone, Copy, PartialEq, Eq, Structural)]
pub enum BasicProtocolType {
    TCP,
    UDP,
    ICMP,
    Other,
}

/// How many service categories there are; every counter vector is this long.
pub const CATEGORY_COUNT: usize = 10;

/// A fixed ordinal for each category, used to index counter vectors.
pub open spec fn spec_category_index(t: PacketType) -> int {
    match t {
        PacketType::TCP_HTTP => 0,
        PacketType::TCP_HTTPS => 1,
        PacketType::TCP_SSH => 2,
        PacketType::TCP_DNS => 3,
        PacketType::TCP_Other => 4,
        PacketType::UDP_DNS => 5,
        PacketType::UDP_DHCP => 6,
        PacketType::UDP_Other => 7,
        PacketType::ICMP => 8,
        PacketType::Other => 9,
    }
}

/// The ordinal of a category, always below `CATEGORY_COUNT`.
pub fn category_index(t: PacketType) -> (i: usize)
    ensures
        i == spec_category_index(t),
        i < CATEGORY_COUNT,
{
    match t {
        PacketType::TCP_HTTP => 0,
        PacketType::TCP_HTTPS => 1,
        PacketType::TCP_SSH => 2,
        PacketType::TCP_DNS => 3,
        PacketType::TCP_Other => 4,
        PacketType::UDP_DNS => 5,
        PacketType::UDP_DHCP => 6,
        PacketType::UDP_Other => 7,
        PacketType::ICMP => 8,
        PacketType::Other => 9,
    }
}

/// The category at each ordinal: the inverse of `spec_category_index`.
pub open spec fn spec_category_of(i: int) -> PacketType {
    if i == 0 {
        PacketType::TCP_HTTP
    } else if i == 1 {
        PacketType::TCP_HTTPS
    } else if i == 2 {
        PacketType::TCP_SSH
    } else if i == 3 {
        PacketType::TCP_DNS
    } else if i == 4 {
        PacketType::TCP_Other
    } else if i == 5 {
        PacketType::UDP_DNS
    } else if i == 6 {
        PacketType::UDP_DHCP
    } else if i == 7 {
        PacketType::UDP_Other
    } else if i == 8 {
        PacketType::ICMP
    } else {
        PacketType::Other
    }
}

/// The category at one ordinal.
pub fn category_of(i: usize) -> (t: PacketType)
    requires
        i < CATEGORY_COUNT,
    ensures
        t == spec_category_of(i as int),
{
    match i {
        0 => PacketType::TCP_HTTP,
        1 => PacketType::TCP_HTTPS,
        2 => PacketType::TCP_SSH,
        3 => PacketType::TCP_DNS,
        4 => PacketType::TCP_Other,
        5 => PacketType::UDP_DNS,
        6 => PacketType::UDP_DHCP,
        7 => PacketType::UDP_Other,
        8 => PacketType::ICMP,
        _ => PacketType::Other,
    }
}

/// Law: the ordinal and the category at it are inverse to one another.
pub proof fn lemma_category_ordinal_inverse(t: PacketType, i: int)
    ensures
        spec_category_of(spec_category_index(t)) == t,
        0 <= i < 10 ==> spec_category_index(spec_category_of(i)) == i,
{
}

/// The category of every service category's rollup.
pub open spec fn spec_basic_type(t: PacketType) -> BasicProtocolType {
    match t {
        PacketType::TCP_HTTP => BasicProtocolType::TCP,
        PacketType::TCP_HTTPS => BasicProtocolType::TCP,
        PacketType::TCP_SSH => BasicProtocolType::TCP,
        PacketType::TCP_DNS => BasicProtocolType::TCP,
        PacketType::TCP_Other => BasicProtocolType::TCP,
        PacketType::UDP_DNS => BasicProtocolType::UDP,
        PacketType::UDP_DHCP => BasicProtocolType::UDP,
        PacketType::UDP_Other => BasicProtocolType::UDP,
        PacketType::ICMP => BasicProtocolType::ICMP,
        PacketType::Other => BasicProtocolType::Other,
    }
}

/// Rolls a detailed category up to TCP, UDP, ICMP or Other.
pub fn get_basic_type(packet_type: PacketType) -> (basic: BasicProtocolType)
    ensures
        basic == spec_basic_type(packet_type),
{
    match packet_type {
        PacketType::TCP_HTTP
        | PacketType::TCP_HTTPS
        | PacketType::TCP_SSH
        | PacketType::TCP_DNS
        | PacketType::TCP_Other => BasicProtocolType::TCP,
        PacketType::UDP_DNS | PacketType::UDP_DHCP | PacketType::UDP_Other => {
            BasicProtocolType::UDP
        },
        PacketType::ICMP => BasicProtocolType::ICMP,
        PacketType::Other => BasicProtocolType::Other,
    }
}

/// The classification rule for TCP segments: the first well-known port
/// found on either end wins, checked in the order HTTP, HTTPS, SSH, DNS.
pub open spec fn spec_classify_tcp(src_port: u16, dst_port: u16) -> PacketType {
    if src_port == 80 || dst_port == 80 {
        PacketType::TCP_HTTP
    } else if src_port == 443 || dst_port == 443 {
        PacketType::TCP_HTTPS
    } else if src_port == 22 || dst_port == 22 {
        PacketType::TCP_SSH
    } else if src_port == 53 || dst_port == 53 {
        PacketType::TCP_DNS
    } else {
        PacketType::TCP_Other
    }
}

/// Classifies a TCP segment by its source and destination ports.
pub fn classify_tcp(src_port: u16, dst_port: u16) -> (t: PacketType)
    ensures
        t == spec_classify_tcp(src_port, dst_port),
{
    if src_port == 80 || dst_port == 80 {
        PacketType::TCP_HTTP
    } else if src_port == 443 || dst_port == 443 {
        PacketType::TCP_HTTPS
    } else if src_port == 22 || dst_port == 22 {
        PacketType::TCP_SSH
    } else if src_port == 53 || dst_port == 53 {
        PacketType::TCP_DNS
    } else {
        PacketType::TCP_Other
    }
}

/// The classification rule for UDP datagrams: DNS on port 53, DHCP on
/// ports 67 and 68, anything else is other UDP traffic.
pub open spec fn spec_classify_udp(src_port: u16, dst_port: u16) -> PacketType {
    if src_port == 53 || dst_port == 53 {
        PacketType::UDP_DNS
    } else if src_port == 67 || dst_port == 67 || src_port == 68 || dst_port == 68 {
        PacketType::UDP_DHCP
    } else {
        PacketType::UDP_Other
    }
}

/// Classifies a UDP datagram by its source and destination ports.
pub fn classify_udp(src_port: u16, dst_port: u16) -> (t: PacketType)
    ensures
        t == spec_classify_udp(src_port, dst_port),
{
    if src_port == 53 || dst_port == 53 {
        PacketType::UDP_DNS
    } else if src_port == 67 || dst_port == 67 || src_port == 68 || dst_port == 68 {
        PacketType::UDP_DHCP
    } else {
        PacketType::UDP_Other
    }
}

/// Law: a TCP segment with port 443 on either end and no port 80 is HTTPS.
/// A packet that also carries port 80 is classified HTTP instead, since the
/// well-known ports are checked in a fixed order.
pub proof fn lemma_classify_tcp_https(src_port: u16, dst_port: u16)
    requires
        src_port == 443 || dst_port == 443,
        src_port != 80,
        dst_port != 80,
    ensures
        spec_classify_tcp(src_port, dst_port) == PacketType::TCP_HTTPS,
{
}

/// Law: a TCP segment with port 80 on either end is HTTP.
pub proof fn lemma_classify_tcp_http(src_port: u16, dst_port: u16)
    requires
        src_port == 80 || dst_port == 80,
    ensures
        spec_classify_tcp(src_port, dst_port) == PacketType::TCP_HTTP,
{
}

/// Law: a TCP segment with port 22 on either end and no HTTP/HTTPS port
/// is SSH.
pub proof fn lemma_classify_tcp_ssh(src_port: u16, dst_port: u16)
    requires
        src_port == 22 || dst_port == 22,
        src_port != 80 && dst_port != 80,
        src_port != 443 && dst_port != 443,
    ensures
        spec_classify_tcp(src_port, dst_port) == PacketType::TCP_SSH,
{
}

/// Law: a TCP segment with port 53 on either end and no higher-priority
/// well-known port is DNS over TCP.
pub proof fn lemma_classify_tcp_dns(src_port: u16, dst_port: u16)
    requires
        src_port == 53 || dst_port == 53,
        src_port != 80 && dst_port != 80,
        src_port != 443 && dst_port != 443,
        src_port != 22 && dst_port != 22,
    ensures
        spec_classify_tcp(src_port, dst_port) == PacketType::TCP_DNS,
{
}

/// Law: a TCP segment with none of the well-known ports on either end is
/// other TCP traffic.
pub proof fn lemma_classify_tcp_other(src_port: u16, dst_port: u16)
    requires
        src_port != 80 && dst_port != 80,
        src_port != 443 && dst_port != 443,
        src_port != 22 && dst_port != 22,
        src_port != 53 && dst_port != 53,
    ensures
        spec_classify_tcp(src_port, dst_port) == PacketType::TCP_Other,
{
}

/// Law: a UDP datagram with port 53 on either end is DNS; with port 67 or
/// 68 (and no port 53) it is DHCP; with none of those it is other UDP
/// traffic.
pub proof fn lemma_classify_udp(src_port: u16, dst_port: u16)
    ensures
        (src_port == 53 || dst_port == 53) ==> spec_classify_udp(src_port, dst_port)
            == PacketType::UDP_DNS,
        (src_port != 53 && dst_port != 53 && (src_port == 67 || dst_port == 67 || src_port == 68
            || dst_port == 68)) ==> spec_classify_udp(src_port, dst_port) == PacketType::UDP_DHCP,
        (src_port != 53 && dst_port != 53 && src_port != 67 && dst_port != 67 && src_port != 68
            && dst_port != 68) ==> spec_classify_udp(src_port, dst_port) == PacketType::UDP_Other,
{
}

/// Law: the rollup is total and sends every TCP variant to TCP, every UDP
/// variant to UDP, ICMP to ICMP and Other to Other.
pub proof fn lemma_basic_type_total(t: PacketType)
    ensures
        spec_basic_type(t) == BasicProtocolType::TCP <==> (t == PacketType::TCP_HTTP || t
            == PacketType::TCP_HTTPS || t == PacketType::TCP_SSH || t == PacketType::TCP_DNS || t
            == PacketType::TCP_Other),
        spec_basic_type(t) == BasicProtocolType::UDP <==> (t == PacketType::UDP_DNS || t
            == PacketType::UDP_DHCP || t == PacketType::UDP_Other),
        spec_basic_type(t) == BasicProtocolType::ICMP <==> t == PacketType::ICMP,
        spec_basic_type(t) == BasicProtocolType::Other <==> t == PacketType::Other,
{
}

/// Law: every TCP classification rolls up to TCP, and every UDP
/// classification rolls up to UDP, whatever the ports were.
pub proof fn lemma_classify_rollup(src_port: u16, dst_port: u16)
    ensures
        spec_basic_type(spec_classify_tcp(src_port, dst_port)) == BasicProtocolType::TCP,
        spec_basic_type(spec_classify_udp(src_port, dst_port)) == BasicProtocolType::UDP,
{
}

} // verus!
