//! The display layer's mode selections: tabs, sorting, filtering, scale
//! and grouping choices.  Each is a small closed cycle with a label.

use vstd::prelude::*;

use crate::addr::ConnectionDirection;
use crate::addr::IpRange;
use crate::addr::get_connection_direction;
use crate::addr::spec_connection_direction;
use crate::category::PacketType;
use crate::flows::ConnectionId;

verus! {

/// What the connection list is sorted by.
#[derive(Debug, Clone, Copy, PartialEq, Eq, Structural)]
pub enum ConnectionSort {
    PacketCount,
    ByteCount,
    LastSeen,
    FirstSeen,
}

impl ConnectionSort {
    /// The label of this sort order.
    pub fn to_string(&self) -> (s: &'static str)
        ensures
            s@ == match *self {
                ConnectionSort::PacketCount => "Packet Count"@,
                ConnectionSort::ByteCount => "Byte Count"@,
                ConnectionSort::LastSeen => "Last Seen"@,
                ConnectionSort::FirstSeen => "First Seen"@,
            },
    {
        match self {
            ConnectionSort::PacketCount => "Packet Count",
            ConnectionSort::ByteCount => "Byte Count",
            ConnectionSort::LastSeen => "Last Seen",
            ConnectionSort::FirstSeen => "First Seen",
        }
    }

    /// The next sort order in the cycle.
    pub fn next(&self) -> (n: ConnectionSort)
        ensures
            n == match *self {
                ConnectionSort::PacketCount => ConnectionSort::ByteCount,
                ConnectionSort::ByteCount => ConnectionSort::LastSeen,
                ConnectionSort::LastSeen => ConnectionSort::FirstSeen,
                ConnectionSort::FirstSeen => ConnectionSort::PacketCount,
            },
    {
        match self {
            ConnectionSort::PacketCount => ConnectionSort::ByteCount,
            ConnectionSort::ByteCount => ConnectionSort::LastSeen,
            ConnectionSort::LastSeen => ConnectionSort::FirstSeen,
            ConnectionSort::FirstSeen => ConnectionSort::PacketCount,
        }
    }
}

/// Which connections the connection list shows.
#[derive(Debug, Clone, Copy, PartialEq, Eq, Structural)]
pub enum ConnectionFilter {
    All,
    Outbound,
    Inbound,
    HTTP,
    HTTPS,
    DNS,
}

impl ConnectionFilter {
    /// The label of this filter.
    pub fn to_string(&self) -> (s: &'static str)
        ensures
            s@ == match *self {
                ConnectionFilter::All => "All"@,
                ConnectionFilter::Outbound => "Outbound"@,
                ConnectionFilter::Inbound => "Inbound"@,
                ConnectionFilter::HTTP => "HTTP"@,
                ConnectionFilter::HTTPS => "HTTPS"@,
                ConnectionFilter::DNS => "DNS"@,
            },
    {
        match self {
            ConnectionFilter::All => "All",
            ConnectionFilter::Outbound => "Outbound",
            ConnectionFilter::Inbound => "Inbound",
            ConnectionFilter::HTTP => "HTTP",
            ConnectionFilter::HTTPS => "HTTPS",
            ConnectionFilter::DNS => "DNS",
        }
    }

    /// The next filter in the cycle.
    pub fn next(&self) -> (n: ConnectionFilter)
        ensures
            n == match *self {
                ConnectionFilter::All => ConnectionFilter::Outbound,
                ConnectionFilter::Outbound => ConnectionFilter::Inbound,
                ConnectionFilter::Inbound => ConnectionFilter::HTTP,
                ConnectionFilter::HTTP => ConnectionFilter::HTTPS,
                ConnectionFilter::HTTPS => ConnectionFilter::DNS,
                ConnectionFilter::DNS => ConnectionFilter::All,
            },
    {
        match self {
            ConnectionFilter::All => ConnectionFilter::Outbound,
            ConnectionFilter::Outbound => ConnectionFilter::Inbound,
            ConnectionFilter::Inbound => ConnectionFilter::HTTP,
            ConnectionFilter::HTTP => ConnectionFilter::HTTPS,
            ConnectionFilter::HTTPS => ConnectionFilter::DNS,
            ConnectionFilter::DNS => ConnectionFilter::All,
        }
    }
}

/// Which flows a filter lets through: every flow, the flows of one
/// direction relative to the local networks, or the flows of one service.
pub open spec fn spec_filter_matches(
    f: ConnectionFilter,
    id: ConnectionId,
    local_networks: Seq<IpRange>,
) -> bool {
    match f {
        ConnectionFilter::All => true,
        ConnectionFilter::Outbound => spec_connection_direction(id.src_ip, id.dst_ip, local_networks)
            == ConnectionDirection::Outbound,
        ConnectionFilter::Inbound => spec_connection_direction(id.src_ip, id.dst_ip, local_networks)
            == ConnectionDirection::Inbound,
        ConnectionFilter::HTTP => id.protocol == PacketType::TCP_HTTP,
        ConnectionFilter::HTTPS => id.protocol == PacketType::TCP_HTTPS,
        ConnectionFilter::DNS => id.protocol == PacketType::UDP_DNS || id.protocol
            == PacketType::TCP_DNS,
    }
}

impl ConnectionFilter {
    /// Whether this filter lets a flow through.
    pub fn matches(&self, id: &ConnectionId, local_networks: &[IpRange]) -> (r: bool)
        ensures
            r == spec_filter_matches(*self, *id, local_networks@),
    {
        match self {
            ConnectionFilter::All => true,
            ConnectionFilter::Outbound => get_connection_direction(
                id.src_ip,
                id.dst_ip,
                local_networks,
            ) == ConnectionDirection::Outbound,
            ConnectionFilter::Inbound => get_connection_direction(
                id.src_ip,
                id.dst_ip,
                local_networks,
            ) == ConnectionDirection::Inbound,
            ConnectionFilter::HTTP => id.protocol == PacketType::TCP_HTTP,
            ConnectionFilter::HTTPS => id.protocol == PacketType::TCP_HTTPS,
            ConnectionFilter::DNS => id.protocol == PacketType::UDP_DNS || id.protocol
                == PacketType::TCP_DNS,
        }
    }
}

/// How geographical data is displayed.
#[derive(Debug, Clone, Copy, PartialEq, Eq, Structural)]
pub enum GeoMode {
    CountryList,
    WorldMap,
}

impl GeoMode {
    /// The label of this mode.
    pub fn to_string(&self) -> (s: &'static str)
        ensures
            s@ == match *self {
                GeoMode::CountryList => "Country List"@,
                GeoMode::WorldMap => "World Map"@,
            },
    {
        match self {
            GeoMode::CountryList => "Country List",
            GeoMode::WorldMap => "World Map",
        }
    }

    /// The other mode.
    pub fn next(&self) -> (n: GeoMode)
        ensures
            n == match *self {
                GeoMode::CountryList => GeoMode::WorldMap,
                GeoMode::WorldMap => GeoMode::CountryList,
            },
    {
        match self {
            GeoMode::CountryList => GeoMode::WorldMap,
            GeoMode::WorldMap => GeoMode::CountryList,
        }
    }
}

/// The vertical scale of the packet graph.
#[derive(Debug, Clone, Copy, PartialEq, Eq, Structural)]
pub enum GraphScale {
    Linear,
    Logarithmic,
}

/// Whether the display groups categories coarsely or shows them all.
#[derive(Debug, Clone, Copy, PartialEq, Eq, Structural)]
pub enum ProtocolGrouping {
    Detailed,
    Basic,
}

/// The display tabs.
#[derive(Debug, Clone, Copy, PartialEq, Eq, Structural)]
pub enum Tab {
    Overview,
    PacketGraph,
    PacketDistribution,
    Connections,
    GeoMap,
}

impl Tab {
    /// The label of this tab.
    pub fn to_string(&self) -> (s: &'static str)
        ensures
            s@ == match *self {
                Tab::Overview => "Overview"@,
                Tab::PacketGraph => "Packet Graph"@,
                Tab::PacketDistribution => "Packet Distribution"@,
                Tab::Connections => "Connections"@,
                Tab::GeoMap => "Geo Map"@,
            },
    {
        match self {
            Tab::Overview => "Overview",
            Tab::PacketGraph => "Packet Graph",
            Tab::PacketDistribution => "Packet Distribution",
            Tab::Connections => "Connections",
            Tab::GeoMap => "Geo Map",
        }
    }

    /// The tab to the right.
    pub fn next(&self) -> (n: Tab)
        ensures
            n == spec_tab_next(*self),
    {
        match self {
            Tab::Overview => Tab::PacketGraph,
            Tab::PacketGraph => Tab::PacketDistribution,
            Tab::PacketDistribution => Tab::Connections,
            Tab::Connections => Tab::GeoMap,
            Tab::GeoMap => Tab::Overview,
        }
    }

    /// The tab to the left.
    pub fn prev(&self) -> (p: Tab)
        ensures
            p == spec_tab_prev(*self),
    {
        match self {
            Tab::Overview => Tab::GeoMap,
            Tab::PacketGraph => Tab::Overview,
            Tab::PacketDistribution => Tab::PacketGraph,
            Tab::Connections => Tab::PacketDistribution,
            Tab::GeoMap => Tab::Connections,
        }
    }
}

/// Law: stepping left undoes stepping right, and the five tabs form one
/// cycle — five steps right return to the start.
pub proof fn lemma_tab_cycle(t: Tab)
    ensures
        spec_tab_prev(spec_tab_next(t)) == t,
        spec_tab_next(spec_tab_next(spec_tab_next(spec_tab_next(spec_tab_next(t))))) == t,
{
}

/// What `Tab::next` returns.
pub open spec fn spec_tab_next(t: Tab) -> Tab {
    match t {
        Tab::Overview => Tab::PacketGraph,
        Tab::PacketGraph => Tab::PacketDistribution,
        Tab::PacketDistribution => Tab::Connections,
        Tab::Connections => Tab::GeoMap,
        Tab::GeoMap => Tab::Overview,
    }
}

/// What `Tab::prev` returns.
pub open spec fn spec_tab_prev(t: Tab) -> Tab {
    match t {
        Tab::Overview => Tab::GeoMap,
        Tab::PacketGraph => Tab::Overview,
        Tab::PacketDistribution => Tab::PacketGraph,
        Tab::Connections => Tab::PacketDistribution,
        Tab::GeoMap => Tab::Connections,
    }
}

} // verus!
