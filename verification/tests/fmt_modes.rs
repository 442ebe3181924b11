use netwatch::addr::default_local_networks;
use netwatch::addr::IpAddress;
use netwatch::category::PacketType;
use netwatch::flows::ConnectionId;
use netwatch::fmt::format_bytes;
use netwatch::fmt::format_bytes_per_sec;
use netwatch::fmt::format_duration;
use netwatch::fmt::u64_to_string;
use netwatch::modes::ConnectionFilter;
use netwatch::modes::ConnectionSort;
use netwatch::modes::GeoMode;
use netwatch::modes::Tab;

#[test]
fn numbers_render_in_decimal() {
    assert_eq!(u64_to_string(0), "0");
    assert_eq!(u64_to_string(7), "7");
    assert_eq!(u64_to_string(1024), "1024");
    assert_eq!(u64_to_string(u64::MAX), "18446744073709551615");
}

#[test]
fn byte_counts_scale_by_unit() {
    assert_eq!(format_bytes(0), "0 B");
    assert_eq!(format_bytes(512), "512 B");
    assert_eq!(format_bytes(1023), "1023 B");
    assert_eq!(format_bytes(1024), "1.00 KB");
    assert_eq!(format_bytes(1536), "1.50 KB");
    assert_eq!(format_bytes(2048), "2.00 KB");
    assert_eq!(format_bytes(5 * 1024 * 1024 + 256 * 1024), "5.25 MB");
    assert_eq!(format_bytes(3 * 1024 * 1024 * 1024 + 512 * 1024 * 1024), "3.50 GB");
}

#[test]
fn byte_counts_round_half_up_with_carry() {
    // 1048571 bytes is 1023.995 KB, which rounds to the whole next unit.
    assert_eq!(format_bytes(1024 * 1024 - 5), "1024.00 KB");
}

#[test]
fn rates_always_show_two_decimals() {
    assert_eq!(format_bytes_per_sec(500), "500.00 B/s");
    assert_eq!(format_bytes_per_sec(1536), "1.50 KB/s");
    assert_eq!(format_bytes_per_sec(2 * 1024 * 1024), "2.00 MB/s");
}

#[test]
fn durations_render_by_magnitude() {
    assert_eq!(format_duration(0), "0s");
    assert_eq!(format_duration(59), "59s");
    assert_eq!(format_duration(60), "1m 0s");
    assert_eq!(format_duration(125), "2m 5s");
    assert_eq!(format_duration(3599), "59m 59s");
    assert_eq!(format_duration(3600), "1h 0m");
    assert_eq!(format_duration(3700), "1h 1m");
}

#[test]
fn sort_orders_cycle() {
    let mut sort = ConnectionSort::PacketCount;
    assert_eq!(sort.to_string(), "Packet Count");
    sort = sort.next();
    assert_eq!(sort, ConnectionSort::ByteCount);
    sort = sort.next();
    sort = sort.next();
    sort = sort.next();
    assert_eq!(sort, ConnectionSort::PacketCount);
}

#[test]
fn filters_cycle_through_all_six() {
    let mut filter = ConnectionFilter::All;
    for _ in 0..6 {
        filter = filter.next();
    }
    assert_eq!(filter, ConnectionFilter::All);
    assert_eq!(ConnectionFilter::HTTPS.to_string(), "HTTPS");
}

#[test]
fn geo_mode_toggles() {
    assert_eq!(GeoMode::CountryList.to_string(), "Country List");
    assert_eq!(GeoMode::CountryList.next(), GeoMode::WorldMap);
    assert_eq!(GeoMode::WorldMap.next(), GeoMode::CountryList);
}

#[test]
fn tabs_cycle_both_ways() {
    let mut tab = Tab::Overview;
    for _ in 0..5 {
        tab = tab.next();
    }
    assert_eq!(tab, Tab::Overview);
    assert_eq!(Tab::Overview.prev(), Tab::GeoMap);
    assert_eq!(Tab::GeoMap.next(), Tab::Overview);
    assert_eq!(Tab::PacketDistribution.to_string(), "Packet Distribution");
    assert_eq!(Tab::Connections.next().prev(), Tab::Connections);
}

#[test]
fn filters_select_by_direction_and_service() {
    let locals = default_local_networks();
    let outbound = ConnectionId {
        src_ip: IpAddress::V4(192, 168, 1, 2),
        dst_ip: IpAddress::V4(93, 184, 216, 34),
        src_port: 50000,
        dst_port: 443,
        protocol: PacketType::TCP_HTTPS,
    };
    let inbound = ConnectionId {
        src_ip: IpAddress::V4(93, 184, 216, 34),
        dst_ip: IpAddress::V4(192, 168, 1, 2),
        src_port: 53,
        dst_port: 40000,
        protocol: PacketType::UDP_DNS,
    };
    assert!(ConnectionFilter::All.matches(&outbound, &locals));
    assert!(ConnectionFilter::Outbound.matches(&outbound, &locals));
    assert!(!ConnectionFilter::Outbound.matches(&inbound, &locals));
    assert!(ConnectionFilter::Inbound.matches(&inbound, &locals));
    assert!(ConnectionFilter::HTTPS.matches(&outbound, &locals));
    assert!(!ConnectionFilter::HTTP.matches(&outbound, &locals));
    assert!(ConnectionFilter::DNS.matches(&inbound, &locals));
}
