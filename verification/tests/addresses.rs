use fcnet::addr::{IpAddr, IpInet};
use fcnet::namespaced::nat_family_from_inet;
use fcnet::network::{AddOrDelGroup, FirecrackerNetworkOperation};
use fcnet::nft::NATFamily;
use fcnet::util::nat_proto_from_addr;

fn v4(a: u8, b: u8, c: u8, d: u8) -> IpAddr {
    IpAddr::V4(u32::from_be_bytes([a, b, c, d]))
}

fn v6(segments: [u16; 8]) -> IpAddr {
    let mut bits: u128 = 0;
    for segment in segments {
        bits = (bits << 16) | segment as u128;
    }
    IpAddr::V6(bits)
}

#[test]
fn ipv4_text_is_dotted_decimal() {
    assert_eq!(v4(10, 0, 0, 2).to_string(), "10.0.0.2");
    assert_eq!(v4(172, 16, 0, 1).to_string(), "172.16.0.1");
    assert_eq!(v4(192, 168, 100, 50).to_string(), "192.168.100.50");
}

#[test]
fn ipv4_text_has_no_leading_zeros() {
    assert_eq!(v4(0, 0, 0, 0).to_string(), "0.0.0.0");
    assert_eq!(v4(1, 20, 100, 9).to_string(), "1.20.100.9");
    assert_eq!(v4(10, 99, 101, 200).to_string(), "10.99.101.200");
}

#[test]
fn ipv4_text_of_the_largest_address() {
    assert_eq!(v4(255, 255, 255, 255).to_string(), "255.255.255.255");
    assert_eq!(IpAddr::V4(u32::MAX).to_string(), "255.255.255.255");
}

#[test]
fn ipv4_text_reads_the_bytes_in_network_order() {
    assert_eq!(IpAddr::V4(0x0A00_0002).to_string(), "10.0.0.2");
    assert_eq!(IpAddr::V4(0x0100_0000).to_string(), "1.0.0.0");
    assert_eq!(IpAddr::V4(1).to_string(), "0.0.0.1");
}

#[test]
fn ipv6_text_is_compressed() {
    assert_eq!(v6([0xfd00, 0, 0, 0, 0, 0, 0, 1]).to_string(), "fd00::1");
    assert_eq!(
        v6([0x2001, 0xdb8, 0, 0, 0x8a2e, 0x370, 0x7334, 1]).to_string(),
        "2001:db8::8a2e:370:7334:1"
    );
}

#[test]
fn ipv6_text_of_the_loopback_and_the_unspecified_address() {
    assert_eq!(IpAddr::V6(1).to_string(), "::1");
    assert_eq!(IpAddr::V6(0).to_string(), "::");
}

#[test]
fn ipv6_text_is_not_its_number() {
    let bits: u128 = 0xfd00_0000_0000_0000_0000_0000_0000_0001;
    assert_ne!(IpAddr::V6(bits).to_string(), bits.to_string());
    assert_eq!(IpAddr::V6(bits).to_string(), "fd00::1");
}

#[test]
fn address_text_is_the_same_on_every_call() {
    let addr = v6([0xfd00, 0, 0, 0, 0, 0, 0, 1]);
    assert_eq!(addr.to_string(), addr.to_string());
    let addr = v4(10, 0, 0, 2);
    assert_eq!(addr.to_string(), addr.to_string());
}

#[test]
fn inet_holds_address_and_prefix_length() {
    let inet = IpInet::new(v4(10, 0, 0, 1), 24).unwrap();
    assert_eq!(inet.address(), v4(10, 0, 0, 1));
    assert_eq!(inet.network_length(), 24);
}

#[test]
fn inet_prefix_is_no_longer_than_an_ipv4_address() {
    assert!(IpInet::new(v4(10, 0, 0, 1), 0).is_some());
    assert!(IpInet::new(v4(10, 0, 0, 1), 32).is_some());
    assert!(IpInet::new(v4(10, 0, 0, 1), 33).is_none());
    assert!(IpInet::new(v4(10, 0, 0, 1), 255).is_none());
}

#[test]
fn inet_prefix_is_no_longer_than_an_ipv6_address() {
    assert!(IpInet::new(IpAddr::V6(1), 64).is_some());
    assert!(IpInet::new(IpAddr::V6(1), 128).is_some());
    assert!(IpInet::new(IpAddr::V6(1), 129).is_none());
}

#[test]
fn protocol_name_follows_the_address() {
    assert_eq!(nat_proto_from_addr(v4(10, 0, 0, 1)), "ip");
    assert_eq!(nat_proto_from_addr(IpAddr::V6(1)), "ip6");
}

#[test]
fn translation_family_follows_the_address() {
    assert_eq!(nat_family_from_inet(&IpInet::new(v4(10, 0, 0, 1), 24).unwrap()), NATFamily::IP);
    assert_eq!(nat_family_from_inet(&IpInet::new(IpAddr::V6(1), 64).unwrap()), NATFamily::IP6);
}

#[test]
fn one_switch_selects_the_operation() {
    let group = AddOrDelGroup { add: true, del: false, check: false };
    assert_eq!(group.operation(), Some(FirecrackerNetworkOperation::Add));
    let group = AddOrDelGroup { add: false, del: true, check: false };
    assert_eq!(group.operation(), Some(FirecrackerNetworkOperation::Delete));
    let group = AddOrDelGroup { add: false, del: false, check: true };
    assert_eq!(group.operation(), Some(FirecrackerNetworkOperation::Check));
}

#[test]
fn no_switch_or_several_select_nothing() {
    assert_eq!(AddOrDelGroup { add: false, del: false, check: false }.operation(), None);
    assert_eq!(AddOrDelGroup { add: true, del: true, check: false }.operation(), None);
    assert_eq!(AddOrDelGroup { add: true, del: false, check: true }.operation(), None);
    assert_eq!(AddOrDelGroup { add: false, del: true, check: true }.operation(), None);
    assert_eq!(AddOrDelGroup { add: true, del: true, check: true }.operation(), None);
}
