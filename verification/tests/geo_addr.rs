use netwatch::addr::ConnectionDirection;
use netwatch::addr::IpAddress;
use netwatch::addr::IpRange;
use netwatch::addr::attribution_target;
use netwatch::addr::default_local_networks;
use netwatch::addr::get_connection_direction;
use netwatch::addr::is_local_ip;
use netwatch::addr::is_loopback_ip;
use netwatch::addr::is_private_ip;
use netwatch::geo::GeoStats;
use netwatch::geo::lookup_ip_location;
use netwatch::geo::lookup_ip_region;

#[test]
fn ten_slash_eight_contains_and_excludes() {
    let range = IpRange::new((10, 0, 0, 0), 8);
    assert!(range.contains(&IpAddress::V4(10, 5, 6, 7)));
    assert!(!range.contains(&IpAddress::V4(11, 0, 0, 0)));
}

#[test]
fn twelve_bit_prefix_masks_partial_octet() {
    let range = IpRange::new((172, 16, 0, 0), 12);
    assert!(range.contains(&IpAddress::V4(172, 16, 0, 1)));
    assert!(range.contains(&IpAddress::V4(172, 31, 255, 255)));
    assert!(!range.contains(&IpAddress::V4(172, 32, 0, 0)));
    assert!(!range.contains(&IpAddress::V4(172, 15, 255, 255)));
}

#[test]
fn zero_prefix_contains_every_ipv4_address() {
    let range = IpRange::new((0, 0, 0, 0), 0);
    assert!(range.contains(&IpAddress::V4(255, 255, 255, 255)));
    assert!(range.contains(&IpAddress::V4(8, 8, 8, 8)));
}

#[test]
fn no_range_contains_an_ipv6_address() {
    let range = IpRange::new((0, 0, 0, 0), 0);
    assert!(!range.contains(&IpAddress::V6(1)));
}

#[test]
fn default_networks_cover_the_private_blocks() {
    let locals = default_local_networks();
    assert!(is_local_ip(IpAddress::V4(10, 1, 2, 3), &locals));
    assert!(is_local_ip(IpAddress::V4(172, 20, 0, 1), &locals));
    assert!(is_local_ip(IpAddress::V4(192, 168, 0, 9), &locals));
    assert!(is_local_ip(IpAddress::V4(127, 0, 0, 1), &locals));
    assert!(is_local_ip(IpAddress::V4(169, 254, 3, 4), &locals));
    assert!(!is_local_ip(IpAddress::V4(8, 8, 8, 8), &locals));
}

#[test]
fn private_and_loopback_checks() {
    assert!(is_private_ip(IpAddress::V4(10, 0, 0, 1)));
    assert!(is_private_ip(IpAddress::V4(172, 16, 0, 1)));
    assert!(is_private_ip(IpAddress::V4(172, 31, 0, 1)));
    assert!(!is_private_ip(IpAddress::V4(172, 32, 0, 1)));
    assert!(is_private_ip(IpAddress::V4(192, 168, 5, 5)));
    assert!(is_private_ip(IpAddress::V4(169, 254, 0, 1)));
    assert!(!is_private_ip(IpAddress::V4(8, 8, 8, 8)));
    assert!(!is_private_ip(IpAddress::V6(1)));
    assert!(is_loopback_ip(IpAddress::V4(127, 0, 0, 1)));
    assert!(!is_loopback_ip(IpAddress::V4(128, 0, 0, 1)));
    assert!(!is_loopback_ip(IpAddress::V6(1)));
}

#[test]
fn direction_is_outbound_only_from_local_to_remote() {
    let locals = default_local_networks();
    let local = IpAddress::V4(192, 168, 1, 2);
    let remote = IpAddress::V4(93, 184, 216, 34);
    assert_eq!(
        get_connection_direction(local, remote, &locals),
        ConnectionDirection::Outbound
    );
    assert_eq!(
        get_connection_direction(remote, local, &locals),
        ConnectionDirection::Inbound
    );
    assert_eq!(
        get_connection_direction(local, local, &locals),
        ConnectionDirection::Inbound
    );
}

#[test]
fn attribution_targets_the_non_local_end() {
    let locals = default_local_networks();
    let local = IpAddress::V4(192, 168, 1, 2);
    let remote = IpAddress::V4(93, 184, 216, 34);
    assert_eq!(attribution_target(local, remote, &locals), remote);
    assert_eq!(attribution_target(remote, local, &locals), remote);
}

#[test]
fn octet_203_maps_to_the_south_america_bucket() {
    let loc = lookup_ip_location(IpAddress::V4(203, 0, 113, 5)).expect("public address");
    assert_eq!(loc.country, "BR");
    assert_eq!(loc.region, "South America");
}

#[test]
fn private_and_loopback_addresses_get_no_attribution() {
    assert!(lookup_ip_location(IpAddress::V4(192, 168, 1, 1)).is_none());
    assert!(lookup_ip_location(IpAddress::V4(10, 1, 1, 1)).is_none());
    assert!(lookup_ip_location(IpAddress::V4(127, 0, 0, 1)).is_none());
    assert!(lookup_ip_location(IpAddress::V6(7)).is_none());
}

#[test]
fn bucket_boundaries_follow_the_first_octet() {
    assert_eq!(lookup_ip_region(IpAddress::V4(1, 0, 0, 1)), Some(0));
    assert_eq!(lookup_ip_region(IpAddress::V4(49, 0, 0, 1)), Some(0));
    assert_eq!(lookup_ip_region(IpAddress::V4(50, 0, 0, 1)), Some(1));
    assert_eq!(lookup_ip_region(IpAddress::V4(99, 0, 0, 1)), Some(1));
    assert_eq!(lookup_ip_region(IpAddress::V4(100, 0, 0, 1)), Some(2));
    assert_eq!(lookup_ip_region(IpAddress::V4(149, 0, 0, 1)), Some(2));
    assert_eq!(lookup_ip_region(IpAddress::V4(150, 0, 0, 1)), Some(3));
    assert_eq!(lookup_ip_region(IpAddress::V4(199, 0, 0, 1)), Some(3));
    assert_eq!(lookup_ip_region(IpAddress::V4(200, 0, 0, 1)), Some(4));
    assert_eq!(lookup_ip_region(IpAddress::V4(255, 0, 0, 1)), Some(4));
}

#[test]
fn bucket_names_match_their_codes() {
    let eu = lookup_ip_location(IpAddress::V4(52, 1, 1, 1)).expect("public address");
    assert_eq!(eu.country, "EU");
    assert_eq!(eu.region, "Europe");
    let us = lookup_ip_location(IpAddress::V4(3, 1, 1, 1)).expect("public address");
    assert_eq!(us.country, "US");
    assert_eq!(us.latitude, 370902);
    assert_eq!(us.longitude, -957129);
}

#[test]
fn geo_stats_track_counts_and_leader() {
    let mut stats = GeoStats::new();
    assert_eq!(stats.top_country(), None);
    assert_eq!(stats.total_countries(), 0);
    stats.record_region(4);
    stats.record_region(4);
    stats.record_region(0);
    assert_eq!(stats.count_of_region(4), 2);
    assert_eq!(stats.count_of_region(0), 1);
    assert_eq!(stats.top_country(), Some(4));
    assert_eq!(stats.total_countries(), 2);
}

#[test]
fn geo_leader_tie_goes_to_the_bucket_seen_last_in_order() {
    let mut stats = GeoStats::new();
    stats.record_region(0);
    stats.record_region(4);
    assert_eq!(stats.top_country(), Some(4));
    stats.record_region(0);
    assert_eq!(stats.top_country(), Some(0));
}
