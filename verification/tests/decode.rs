use netwatch::addr::IpAddress;
use netwatch::category::PacketType;
use netwatch::decode::NetworkKind;
use netwatch::decode::TransportKind;
use netwatch::decode::decode_frame;

fn ethernet_frame(ethertype: u16, payload: &[u8]) -> Vec<u8> {
    let mut frame: Vec<u8> = vec![0; 12];
    frame.push((ethertype >> 8) as u8);
    frame.push((ethertype & 0xFF) as u8);
    frame.extend_from_slice(payload);
    frame
}

fn ipv4_packet(protocol: u8, src: [u8; 4], dst: [u8; 4], payload: &[u8]) -> Vec<u8> {
    let mut p: Vec<u8> = vec![0; 20];
    p[0] = 0x45;
    p[9] = protocol;
    p[12..16].copy_from_slice(&src);
    p[16..20].copy_from_slice(&dst);
    p.extend_from_slice(payload);
    p
}

fn tcp_header(src_port: u16, dst_port: u16) -> Vec<u8> {
    let mut t: Vec<u8> = vec![0; 20];
    t[0] = (src_port >> 8) as u8;
    t[1] = (src_port & 0xFF) as u8;
    t[2] = (dst_port >> 8) as u8;
    t[3] = (dst_port & 0xFF) as u8;
    t
}

fn udp_header(src_port: u16, dst_port: u16) -> Vec<u8> {
    let mut u: Vec<u8> = vec![0; 8];
    u[0] = (src_port >> 8) as u8;
    u[1] = (src_port & 0xFF) as u8;
    u[2] = (dst_port >> 8) as u8;
    u[3] = (dst_port & 0xFF) as u8;
    u
}

#[test]
fn ipv4_tcp_https_is_decoded_and_tracked() {
    let tcp = tcp_header(55555, 443);
    let ip = ipv4_packet(6, [203, 0, 113, 5], [10, 0, 0, 1], &tcp);
    let frame = ethernet_frame(0x0800, &ip);
    let d = decode_frame(&frame, 1514).expect("frame should decode");
    assert_eq!(d.network, NetworkKind::Ipv4);
    assert_eq!(d.transport, TransportKind::Tcp);
    assert_eq!(d.category, PacketType::TCP_HTTPS);
    assert_eq!(d.src_addr, Some(IpAddress::V4(203, 0, 113, 5)));
    assert_eq!(d.dst_addr, Some(IpAddress::V4(10, 0, 0, 1)));
    assert_eq!(d.src_port, Some(55555));
    assert_eq!(d.dst_port, Some(443));
    assert_eq!(d.wire_length, 1514);
    let id = d.flow_id().expect("tcp over ipv4 should be tracked");
    assert_eq!(id.protocol, PacketType::TCP_HTTPS);
    assert_eq!(id.src_port, 55555);
    assert_eq!(id.dst_port, 443);
    assert!(d.geo_eligible());
}

#[test]
fn ipv4_udp_dns_is_decoded_tracked_and_attributed() {
    let udp = udp_header(53, 40000);
    let ip = ipv4_packet(17, [8, 8, 8, 8], [192, 168, 1, 2], &udp);
    let frame = ethernet_frame(0x0800, &ip);
    let d = decode_frame(&frame, 90).expect("frame should decode");
    assert_eq!(d.transport, TransportKind::Udp);
    assert_eq!(d.category, PacketType::UDP_DNS);
    assert!(d.flow_id().is_some());
    assert!(d.geo_eligible());
}

#[test]
fn ipv4_icmp_has_no_flow() {
    let ip = ipv4_packet(1, [10, 0, 0, 1], [10, 0, 0, 2], &[0, 0, 0, 0]);
    let frame = ethernet_frame(0x0800, &ip);
    let d = decode_frame(&frame, 64).expect("frame should decode");
    assert_eq!(d.transport, TransportKind::Icmp);
    assert_eq!(d.category, PacketType::ICMP);
    assert_eq!(d.flow_id(), None);
    assert_eq!(d.src_port, None);
}

#[test]
fn ipv4_header_options_shift_the_transport_header() {
    // An IPv4 header declaring six 32-bit words: the TCP ports sit after
    // 24 bytes, not 20.
    let tcp = tcp_header(80, 40000);
    let mut ip: Vec<u8> = vec![0; 24];
    ip[0] = 0x46;
    ip[9] = 6;
    ip[12..16].copy_from_slice(&[1, 2, 3, 4]);
    ip[16..20].copy_from_slice(&[5, 6, 7, 8]);
    ip.extend_from_slice(&tcp);
    let frame = ethernet_frame(0x0800, &ip);
    let d = decode_frame(&frame, 100).expect("frame should decode");
    assert_eq!(d.category, PacketType::TCP_HTTP);
    assert_eq!(d.src_port, Some(80));
}

#[test]
fn truncated_tcp_degrades_to_other() {
    let ip = ipv4_packet(6, [1, 2, 3, 4], [5, 6, 7, 8], &[0; 10]);
    let frame = ethernet_frame(0x0800, &ip);
    let d = decode_frame(&frame, 60).expect("frame should decode");
    assert_eq!(d.network, NetworkKind::Ipv4);
    assert_eq!(d.transport, TransportKind::Tcp);
    assert_eq!(d.category, PacketType::Other);
    assert_eq!(d.src_port, None);
    assert_eq!(d.flow_id(), None);
    assert!(!d.geo_eligible());
}

#[test]
fn truncated_ipv4_header_degrades_to_other() {
    let frame = ethernet_frame(0x0800, &[0x45, 0, 0]);
    let d = decode_frame(&frame, 17).expect("frame should decode");
    assert_eq!(d.network, NetworkKind::Ipv4);
    assert_eq!(d.transport, TransportKind::Unknown);
    assert_eq!(d.category, PacketType::Other);
    assert_eq!(d.src_addr, None);
}

#[test]
fn unknown_ethertype_is_dropped_from_every_metric() {
    let frame = ethernet_frame(0x0806, &[0; 28]);
    assert!(decode_frame(&frame, 42).is_none());
}

#[test]
fn frame_too_short_for_ethernet_is_dropped() {
    let frame: Vec<u8> = vec![0; 13];
    assert!(decode_frame(&frame, 13).is_none());
}

#[test]
fn ipv6_tcp_is_classified_but_not_tracked() {
    let tcp = tcp_header(50000, 443);
    let mut ip: Vec<u8> = vec![0; 40];
    ip[6] = 6;
    ip[8] = 0x20;
    ip[9] = 0x01;
    ip[39] = 0x01;
    ip.extend_from_slice(&tcp);
    let frame = ethernet_frame(0x86DD, &ip);
    let d = decode_frame(&frame, 100).expect("frame should decode");
    assert_eq!(d.network, NetworkKind::Ipv6);
    assert_eq!(d.transport, TransportKind::Tcp);
    assert_eq!(d.category, PacketType::TCP_HTTPS);
    assert!(matches!(d.src_addr, Some(IpAddress::V6(_))));
    assert_eq!(d.flow_id(), None);
    assert!(!d.geo_eligible());
}

#[test]
fn ipv6_icmp_is_classified() {
    let mut ip: Vec<u8> = vec![0; 40];
    ip[6] = 58;
    let frame = ethernet_frame(0x86DD, &ip);
    let d = decode_frame(&frame, 60).expect("frame should decode");
    assert_eq!(d.transport, TransportKind::Icmp);
    assert_eq!(d.category, PacketType::ICMP);
}

#[test]
fn ipv6_address_bytes_are_big_endian() {
    let mut ip: Vec<u8> = vec![0; 40];
    ip[6] = 59;
    ip[8] = 0x01;
    ip[23] = 0x02;
    let frame = ethernet_frame(0x86DD, &ip);
    let d = decode_frame(&frame, 60).expect("frame should decode");
    let expected: u128 = (1u128 << 120) + 2;
    assert_eq!(d.src_addr, Some(IpAddress::V6(expected)));
}
