use netwatch::category::BasicProtocolType;
use netwatch::category::PacketType;
use netwatch::category::classify_tcp;
use netwatch::category::classify_udp;
use netwatch::category::get_basic_type;

#[test]
fn tcp_https_on_either_port() {
    assert_eq!(classify_tcp(443, 50000), PacketType::TCP_HTTPS);
    assert_eq!(classify_tcp(50000, 443), PacketType::TCP_HTTPS);
}

#[test]
fn tcp_http_on_either_port() {
    assert_eq!(classify_tcp(80, 50000), PacketType::TCP_HTTP);
    assert_eq!(classify_tcp(50000, 80), PacketType::TCP_HTTP);
}

#[test]
fn tcp_ssh_on_either_port() {
    assert_eq!(classify_tcp(22, 50000), PacketType::TCP_SSH);
    assert_eq!(classify_tcp(50000, 22), PacketType::TCP_SSH);
}

#[test]
fn tcp_dns_on_either_port() {
    assert_eq!(classify_tcp(53, 50000), PacketType::TCP_DNS);
    assert_eq!(classify_tcp(50000, 53), PacketType::TCP_DNS);
}

#[test]
fn tcp_other_ports() {
    assert_eq!(classify_tcp(50000, 60000), PacketType::TCP_Other);
}

#[test]
fn tcp_http_takes_precedence_over_https() {
    assert_eq!(classify_tcp(80, 443), PacketType::TCP_HTTP);
}

#[test]
fn udp_dns_on_either_port() {
    assert_eq!(classify_udp(53, 50000), PacketType::UDP_DNS);
    assert_eq!(classify_udp(50000, 53), PacketType::UDP_DNS);
}

#[test]
fn udp_dhcp_on_ports_67_and_68() {
    assert_eq!(classify_udp(67, 68), PacketType::UDP_DHCP);
    assert_eq!(classify_udp(50000, 67), PacketType::UDP_DHCP);
    assert_eq!(classify_udp(68, 50000), PacketType::UDP_DHCP);
}

#[test]
fn udp_other_ports() {
    assert_eq!(classify_udp(50000, 60000), PacketType::UDP_Other);
}

#[test]
fn basic_type_covers_all_ten_categories() {
    assert_eq!(get_basic_type(PacketType::TCP_HTTP), BasicProtocolType::TCP);
    assert_eq!(get_basic_type(PacketType::TCP_HTTPS), BasicProtocolType::TCP);
    assert_eq!(get_basic_type(PacketType::TCP_SSH), BasicProtocolType::TCP);
    assert_eq!(get_basic_type(PacketType::TCP_DNS), BasicProtocolType::TCP);
    assert_eq!(get_basic_type(PacketType::TCP_Other), BasicProtocolType::TCP);
    assert_eq!(get_basic_type(PacketType::UDP_DNS), BasicProtocolType::UDP);
    assert_eq!(get_basic_type(PacketType::UDP_DHCP), BasicProtocolType::UDP);
    assert_eq!(get_basic_type(PacketType::UDP_Other), BasicProtocolType::UDP);
    assert_eq!(get_basic_type(PacketType::ICMP), BasicProtocolType::ICMP);
    assert_eq!(get_basic_type(PacketType::Other), BasicProtocolType::Other);
}
