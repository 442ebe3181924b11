//! Addresses, network ranges, and the locality and direction rules.

use vstd::prelude::*;

verus! {

/// A network-layer address: the four octets of an IPv4 address, or a
/// 128-bit IPv6 address.
#[derive(Debug, Clone, Copy, PartialEq, Eq, Structural)]
pub enum IpAddress {
    V4(u8, u8, u8, u8),
    V6(u128),
}

/// The direction of a flow relative to the configured local networks.
#[derive(Debug, Clone, Copy, PartialEq, Eq, Structural)]
pub enum ConnectionDirection {
    Outbound,
    Inbound,
}

/// The mask byte that a prefix length leaves for one octet, given how many
/// of the prefix bits fall into that octet (between 0 and 8).
pub open spec fn spec_prefix_mask(bits: int) -> u8 {
    if bits <= 0 {
        0x00
    } else if bits == 1 {
        0x80
    } else if bits == 2 {
        0xC0
    } else if bits == 3 {
        0xE0
    } else if bits == 4 {
        0xF0
    } else if bits == 5 {
        0xF8
    } else if bits == 6 {
        0xFC
    } else if bits == 7 {
        0xFE
    } else {
        0xFF
    }
}

/// How many bits of a prefix of length `prefix` fall into octet `i`.
pub open spec fn spec_octet_bits(prefix: int, i: int) -> int {
    if prefix <= 8 * i {
        0
    } else if prefix >= 8 * i + 8 {
        8
    } else {
        prefix - 8 * i
    }
}

fn prefix_mask(bits: u8) -> (m: u8)
    requires
        bits <= 8,
    ensures
        m == spec_prefix_mask(bits as int),
{
    match bits {
        0 => 0x00,
        1 => 0x80,
        2 => 0xC0,
        3 => 0xE0,
        4 => 0xF0,
        5 => 0xF8,
        6 => 0xFC,
        7 => 0xFE,
        _ => 0xFF,
    }
}

/// An IPv4 network range, compiled from a base address and a prefix length
/// into a base/mask pair; immutable after construction.
#[derive(Debug, Clone, Copy, PartialEq, Eq, Structural)]
pub struct IpRange {
    pub base0: u8,
    pub base1: u8,
    pub base2: u8,
    pub base3: u8,
    pub mask0: u8,
    pub mask1: u8,
    pub mask2: u8,
    pub mask3: u8,
}

impl IpRange {

    /// Whether an address lies in this range: every masked octet of an
    /// IPv4 address agrees with the masked base; IPv6 addresses never lie
    /// in a range.
    pub open spec fn spec_contains(self, ip: IpAddress) -> bool {
        match ip {
            IpAddress::V4(a, b, c, d) => (a & self.mask0) == (self.base0 & self.mask0) && (b
                & self.mask1) == (self.base1 & self.mask1) && (c & self.mask2) == (self.base2
                & self.mask2) && (d & self.mask3) == (self.base3 & self.mask3),
            IpAddress::V6(_) => false,
        }
    }

    /// Compiles a base address and prefix length into a range.
    pub fn new(base: (u8, u8, u8, u8), prefix: u8) -> (r: IpRange)
        ensures
            r == IpRange::new_spec(base, prefix),
    {
        let b0 = if prefix >= 8 {
            8
        } else {
            prefix
        };
        let b1 = if prefix >= 16 {
            8
        } else if prefix <= 8 {
            0
        } else {
            prefix - 8
        };
        let b2 = if prefix >= 24 {
            8
        } else if prefix <= 16 {
            0
        } else {
            prefix - 16
        };
        let b3 = if prefix >= 32 {
            8
        } else if prefix <= 24 {
            0
        } else {
            prefix - 24
        };
        IpRange {
            base0: base.0,
            base1: base.1,
            base2: base.2,
            base3: base.3,
            mask0: prefix_mask(b0),
            mask1: prefix_mask(b1),
            mask2: prefix_mask(b2),
            mask3: prefix_mask(b3),
        }
    }

    /// Whether `ip` lies in this range.
    pub fn contains(&self, ip: &IpAddress) -> (r: bool)
        ensures
            r == self.spec_contains(*ip),
    {
        match ip {
            IpAddress::V4(a, b, c, d) => (*a & self.mask0) == (self.base0 & self.mask0) && (*b
                & self.mask1) == (self.base1 & self.mask1) && (*c & self.mask2) == (self.base2
                & self.mask2) && (*d & self.mask3) == (self.base3 & self.mask3),
            IpAddress::V6(_) => false,
        }
    }
}

/// Whether an address lies in any of the given local networks.
pub open spec fn spec_is_local_ip(ip: IpAddress, local_networks: Seq<IpRange>) -> bool {
    exists|i: int| 0 <= i < local_networks.len() && local_networks[i].spec_contains(ip)
}

/// Whether `ip` lies in any of the configured local networks.
pub fn is_local_ip(ip: IpAddress, local_networks: &[IpRange]) -> (r: bool)
    ensures
        r == spec_is_local_ip(ip, local_networks@),
{
    let n = local_networks.len();
    for i in 0..n
        invariant
            n == local_networks@.len(),
            forall|j: int| 0 <= j < i ==> !local_networks@[j].spec_contains(ip),
    {
        let range = &local_networks[i];
        if range.contains(&ip) {
            return true;
        }
    }
    false
}

/// Whether an IPv4 address falls in one of the private or link-local
/// blocks 10/8, 172.16/12, 192.168/16 or 169.254/16; never true of IPv6.
pub open spec fn spec_is_private_ip(ip: IpAddress) -> bool {
    match ip {
        IpAddress::V4(a, b, _c, _d) => a == 10 || (a == 172 && 16 <= b <= 31) || (a == 192 && b
            == 168) || (a == 169 && b == 254),
        IpAddress::V6(_) => false,
    }
}

/// Whether `ip` is a private or link-local IPv4 address.
pub fn is_private_ip(ip: IpAddress) -> (r: bool)
    ensures
        r == spec_is_private_ip(ip),
{
    match ip {
        IpAddress::V4(a, b, _c, _d) => a == 10 || (a == 172 && 16 <= b && b <= 31) || (a == 192 && b
            == 168) || (a == 169 && b == 254),
        IpAddress::V6(_) => false,
    }
}

/// Whether an address lies in the IPv4 loopback block 127/8.
pub open spec fn spec_is_loopback_ip(ip: IpAddress) -> bool {
    match ip {
        IpAddress::V4(a, _b, _c, _d) => a == 127,
        IpAddress::V6(_) => false,
    }
}

/// Whether `ip` is an IPv4 loopback address.
pub fn is_loopback_ip(ip: IpAddress) -> (r: bool)
    ensures
        r == spec_is_loopback_ip(ip),
{
    match ip {
        IpAddress::V4(a, _b, _c, _d) => a == 127,
        IpAddress::V6(_) => false,
    }
}

/// The direction rule: a flow is outbound exactly when its source is local
/// and its destination is not; everything else (including local-to-local)
/// counts as inbound.
pub open spec fn spec_connection_direction(
    src_ip: IpAddress,
    dst_ip: IpAddress,
    local_networks: Seq<IpRange>,
) -> ConnectionDirection {
    if spec_is_local_ip(src_ip, local_networks) && !spec_is_local_ip(dst_ip, local_networks) {
        ConnectionDirection::Outbound
    } else {
        ConnectionDirection::Inbound
    }
}

/// Determines the direction of a flow relative to the local networks.
pub fn get_connection_direction(
    src_ip: IpAddress,
    dst_ip: IpAddress,
    local_networks: &[IpRange],
) -> (d: ConnectionDirection)
    ensures
        d == spec_connection_direction(src_ip, dst_ip, local_networks@),
{
    let src_is_local = is_local_ip(src_ip, local_networks);
    let dst_is_local = is_local_ip(dst_ip, local_networks);
    if src_is_local && !dst_is_local {
        ConnectionDirection::Outbound
    } else {
        ConnectionDirection::Inbound
    }
}

/// The subject of region attribution: the destination when the source is
/// local, otherwise the source, so that traffic is attributed to whichever
/// end is not local.
pub open spec fn spec_attribution_target(
    src_ip: IpAddress,
    dst_ip: IpAddress,
    local_networks: Seq<IpRange>,
) -> IpAddress {
    if spec_is_local_ip(src_ip, local_networks) {
        dst_ip
    } else {
        src_ip
    }
}

/// Picks the non-local end of a flow as the address to attribute.
pub fn attribution_target(
    src_ip: IpAddress,
    dst_ip: IpAddress,
    local_networks: &[IpRange],
) -> (target: IpAddress)
    ensures
        target == spec_attribution_target(src_ip, dst_ip, local_networks@),
{
    if is_local_ip(src_ip, local_networks) {
        dst_ip
    } else {
        src_ip
    }
}

/// The five built-in ranges that define "local" by default: 10/8,
/// 172.16/12, 192.168/16, 127/8 and 169.254/16.
pub fn default_local_networks() -> (v: Vec<IpRange>)
    ensures
        v@.len() == 5,
        v@[0] == IpRange::new_spec((10, 0, 0, 0), 8),
        v@[1] == IpRange::new_spec((172, 16, 0, 0), 12),
        v@[2] == IpRange::new_spec((192, 168, 0, 0), 16),
        v@[3] == IpRange::new_spec((127, 0, 0, 0), 8),
        v@[4] == IpRange::new_spec((169, 254, 0, 0), 16),
{
    let mut v: Vec<IpRange> = Vec::new();
    v.push(IpRange::new((10, 0, 0, 0), 8));
    v.push(IpRange::new((172, 16, 0, 0), 12));
    v.push(IpRange::new((192, 168, 0, 0), 16));
    v.push(IpRange::new((127, 0, 0, 0), 8));
    v.push(IpRange::new((169, 254, 0, 0), 16));
    v
}

impl IpRange {
    /// The range that `new` compiles from a base and prefix.
    pub open spec fn new_spec(base: (u8, u8, u8, u8), prefix: u8) -> IpRange {
        IpRange {
            base0: base.0,
            base1: base.1,
            base2: base.2,
            base3: base.3,
            mask0: spec_prefix_mask(spec_octet_bits(prefix as int, 0)),
            mask1: spec_prefix_mask(spec_octet_bits(prefix as int, 1)),
            mask2: spec_prefix_mask(spec_octet_bits(prefix as int, 2)),
            mask3: spec_prefix_mask(spec_octet_bits(prefix as int, 3)),
        }
    }
}

} // verus!
