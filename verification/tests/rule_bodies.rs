use fcnet::addr::{IpAddr, IpInet};
use fcnet::namespaced::{
    inner_dnat_expr, inner_snat_expr, outer_egress_forward_expr, outer_ingress_forward_expr,
    outer_masq_expr,
};
use fcnet::network::{
    of_same_family, FirecrackerIpStack, FirecrackerNetwork, FirecrackerNetworkType,
};
use fcnet::nft::{same_statements, Expression, MetaKey, NATFamily, NfFamily, Statement, NAT};
use fcnet::util::FirecrackerNetworkExt;

fn v4(a: u8, b: u8, c: u8, d: u8) -> IpAddr {
    IpAddr::V4(u32::from_be_bytes([a, b, c, d]))
}

fn inet(addr: IpAddr, len: u8) -> IpInet {
    IpInet::new(addr, len).unwrap()
}

fn network(ip_stack: FirecrackerIpStack, forwarded_guest_ip: Option<IpAddr>) -> FirecrackerNetwork {
    FirecrackerNetwork {
        nft_path: None,
        ip_stack,
        iface_name: "eth0".to_string(),
        tap_name: "tap0".to_string(),
        tap_ip: inet(v4(172, 16, 0, 1), 24),
        guest_ip: inet(v4(172, 16, 0, 2), 24),
        network_type: FirecrackerNetworkType::Namespaced {
            netns_name: "fcnet".to_string(),
            veth1_name: "veth0".to_string(),
            veth2_name: "vpeer0".to_string(),
            veth1_ip: inet(v4(10, 0, 0, 1), 24),
            veth2_ip: inet(v4(10, 0, 0, 2), 24),
            forwarded_guest_ip,
        },
    }
}

fn interface(key: MetaKey, name: &str) -> Statement {
    Statement::Match { left: Expression::Meta(key), right: Expression::String(name.to_string()) }
}

fn address(protocol: &str, field: &str, text: &str) -> Statement {
    Statement::Match {
        left: Expression::PayloadField { protocol: protocol.to_string(), field: field.to_string() },
        right: Expression::String(text.to_string()),
    }
}

#[test]
fn outer_masq_matches_source_and_interface() {
    let network = network(FirecrackerIpStack::V4, None);
    let data = network.namespaced_data();
    assert_eq!(
        outer_masq_expr(&network, &data),
        vec![
            address("ip", "saddr", "10.0.0.2"),
            interface(MetaKey::Oifname, "eth0"),
            Statement::Masquerade,
        ]
    );
}

#[test]
fn outer_masq_of_an_ipv6_pair_names_ip6() {
    let mut network = network(FirecrackerIpStack::V6, None);
    network.network_type = FirecrackerNetworkType::Namespaced {
        netns_name: "fcnet".to_string(),
        veth1_name: "veth0".to_string(),
        veth2_name: "vpeer0".to_string(),
        veth1_ip: inet(IpAddr::V6(0xfd00_0000_0000_0000_0000_0000_0000_0001), 64),
        veth2_ip: inet(IpAddr::V6(0xfd00_0000_0000_0000_0000_0000_0000_0002), 64),
        forwarded_guest_ip: None,
    };
    let data = network.namespaced_data();
    assert_eq!(
        outer_masq_expr(&network, &data),
        vec![
            address("ip6", "saddr", "fd00::2"),
            interface(MetaKey::Oifname, "eth0"),
            Statement::Masquerade,
        ]
    );
}

#[test]
fn outer_ingress_forward_goes_from_interface_to_link() {
    let network = network(FirecrackerIpStack::V4, None);
    let data = network.namespaced_data();
    assert_eq!(
        outer_ingress_forward_expr(&network, &data),
        vec![
            interface(MetaKey::Iifname, "eth0"),
            interface(MetaKey::Oifname, "veth0"),
            Statement::Accept,
        ]
    );
}

#[test]
fn outer_egress_forward_goes_from_link_to_interface() {
    let network = network(FirecrackerIpStack::V4, None);
    let data = network.namespaced_data();
    assert_eq!(
        outer_egress_forward_expr(&network, &data),
        vec![
            interface(MetaKey::Oifname, "eth0"),
            interface(MetaKey::Iifname, "veth0"),
            Statement::Accept,
        ]
    );
}

#[test]
fn inner_snat_translates_guest_to_link_address() {
    let expr = inner_snat_expr(
        "vpeer0".to_string(),
        inet(v4(172, 16, 0, 2), 24),
        inet(v4(10, 0, 0, 2), 24),
        NfFamily::IP,
    );
    assert_eq!(
        expr,
        vec![
            interface(MetaKey::Oifname, "vpeer0"),
            address("ip", "saddr", "172.16.0.2"),
            Statement::SNAT(NAT { addr: Expression::String("10.0.0.2".to_string()), family: None }),
        ]
    );
}

#[test]
fn inner_snat_names_the_family_in_an_inet_table() {
    let expr = inner_snat_expr(
        "vpeer0".to_string(),
        inet(v4(172, 16, 0, 2), 24),
        inet(v4(10, 0, 0, 2), 24),
        NfFamily::INet,
    );
    assert_eq!(
        expr[2],
        Statement::SNAT(NAT {
            addr: Expression::String("10.0.0.2".to_string()),
            family: Some(NATFamily::IP),
        })
    );
    let expr = inner_snat_expr(
        "vpeer0".to_string(),
        inet(IpAddr::V6(0xfd00_0000_0000_0000_0000_0000_0000_0010), 64),
        inet(IpAddr::V6(0xfd00_0000_0000_0000_0000_0000_0000_0002), 64),
        NfFamily::INet,
    );
    assert_eq!(
        expr,
        vec![
            interface(MetaKey::Oifname, "vpeer0"),
            address("ip6", "saddr", "fd00::10"),
            Statement::SNAT(NAT {
                addr: Expression::String("fd00::2".to_string()),
                family: Some(NATFamily::IP6),
            }),
        ]
    );
}

#[test]
fn inner_snat_leaves_the_family_out_in_an_ip6_table() {
    let expr = inner_snat_expr(
        "vpeer0".to_string(),
        inet(IpAddr::V6(0xfd00_0000_0000_0000_0000_0000_0000_0010), 64),
        inet(IpAddr::V6(0xfd00_0000_0000_0000_0000_0000_0000_0002), 64),
        NfFamily::IP6,
    );
    assert_eq!(
        expr[2],
        Statement::SNAT(NAT { addr: Expression::String("fd00::2".to_string()), family: None })
    );
}

#[test]
fn inner_dnat_translates_forwarded_to_guest_address() {
    let expr = inner_dnat_expr(
        "vpeer0".to_string(),
        v4(192, 168, 100, 50),
        inet(v4(172, 16, 0, 2), 24),
        NfFamily::IP,
    );
    assert_eq!(
        expr,
        vec![
            interface(MetaKey::Iifname, "vpeer0"),
            address("ip", "daddr", "192.168.100.50"),
            Statement::DNAT(NAT {
                addr: Expression::String("172.16.0.2".to_string()),
                family: None,
            }),
        ]
    );
}

#[test]
fn inner_dnat_names_the_family_of_the_guest_in_an_inet_table() {
    let expr = inner_dnat_expr(
        "vpeer0".to_string(),
        v4(192, 168, 100, 50),
        inet(v4(172, 16, 0, 2), 24),
        NfFamily::INet,
    );
    assert_eq!(
        expr[2],
        Statement::DNAT(NAT {
            addr: Expression::String("172.16.0.2".to_string()),
            family: Some(NATFamily::IP),
        })
    );
}

#[test]
fn rule_bodies_are_the_same_on_every_call() {
    let network = network(FirecrackerIpStack::Dual, Some(v4(192, 168, 100, 50)));
    let data = network.namespaced_data();
    let masq = outer_masq_expr(&network, &data);
    let ingress = outer_ingress_forward_expr(&network, &data);
    let egress = outer_egress_forward_expr(&network, &data);
    let snat = inner_snat_expr(
        "vpeer0".to_string(),
        network.guest_ip,
        *data.veth2_ip,
        network.nf_family(),
    );
    // in another order
    assert_eq!(outer_egress_forward_expr(&network, &data), egress);
    assert_eq!(
        inner_snat_expr("vpeer0".to_string(), network.guest_ip, *data.veth2_ip, network.nf_family()),
        snat
    );
    assert_eq!(outer_masq_expr(&network, &data), masq);
    assert_eq!(outer_ingress_forward_expr(&network, &data), ingress);
    assert!(same_statements(&outer_masq_expr(&network, &data), &masq));
    assert!(same_statements(&outer_ingress_forward_expr(&network, &data), &ingress));
    assert!(same_statements(&outer_egress_forward_expr(&network, &data), &egress));
}

#[test]
fn outer_rule_bodies_differ_from_one_another() {
    let network = network(FirecrackerIpStack::V4, None);
    let data = network.namespaced_data();
    let masq = outer_masq_expr(&network, &data);
    let ingress = outer_ingress_forward_expr(&network, &data);
    let egress = outer_egress_forward_expr(&network, &data);
    assert!(!same_statements(&masq, &ingress));
    assert!(!same_statements(&masq, &egress));
    assert!(!same_statements(&ingress, &egress));
}

#[test]
fn statements_are_compared_by_value() {
    let a = vec![interface(MetaKey::Oifname, "eth0"), Statement::Accept];
    assert!(same_statements(&a, &a.clone()));
    assert!(!same_statements(&a, &vec![interface(MetaKey::Oifname, "eth0")]));
    assert!(!same_statements(&a, &vec![interface(MetaKey::Oifname, "eth1"), Statement::Accept]));
    assert!(!same_statements(&a, &vec![interface(MetaKey::Iifname, "eth0"), Statement::Accept]));
    assert!(!same_statements(&a, &vec![interface(MetaKey::Oifname, "eth0"), Statement::Masquerade]));
    assert!(!same_statements(&a, &vec![Statement::Accept, interface(MetaKey::Oifname, "eth0")]));
    assert!(same_statements(&vec![], &vec![]));
}

#[test]
fn translations_are_compared_by_address_and_family() {
    let nat = |text: &str, family| NAT { addr: Expression::String(text.to_string()), family };
    assert!(Statement::SNAT(nat("10.0.0.2", None)).equals(&Statement::SNAT(nat("10.0.0.2", None))));
    assert!(!Statement::SNAT(nat("10.0.0.2", None)).equals(&Statement::DNAT(nat("10.0.0.2", None))));
    assert!(!Statement::SNAT(nat("10.0.0.2", None)).equals(&Statement::SNAT(nat("10.0.0.3", None))));
    assert!(!Statement::SNAT(nat("10.0.0.2", None))
        .equals(&Statement::SNAT(nat("10.0.0.2", Some(NATFamily::IP)))));
    assert!(!Statement::SNAT(nat("10.0.0.2", Some(NATFamily::IP6)))
        .equals(&Statement::SNAT(nat("10.0.0.2", Some(NATFamily::IP)))));
    assert!(address("ip", "saddr", "10.0.0.2").equals(&address("ip", "saddr", "10.0.0.2")));
    assert!(!address("ip", "saddr", "10.0.0.2").equals(&address("ip6", "saddr", "10.0.0.2")));
    assert!(!address("ip", "saddr", "10.0.0.2").equals(&address("ip", "daddr", "10.0.0.2")));
    assert!(Statement::Other.equals(&Statement::Other));
    assert!(!Statement::Other.equals(&Statement::Accept));
}

#[test]
fn family_follows_the_ip_stack() {
    assert_eq!(network(FirecrackerIpStack::V4, None).nf_family(), NfFamily::IP);
    assert_eq!(network(FirecrackerIpStack::V6, None).nf_family(), NfFamily::IP6);
    assert_eq!(network(FirecrackerIpStack::Dual, None).nf_family(), NfFamily::INet);
}

#[test]
fn program_is_the_path_given() {
    let mut network = network(FirecrackerIpStack::V4, None);
    assert_eq!(network.nft_program(), None);
    network.nft_path = Some("/usr/sbin/nft".to_string());
    assert_eq!(network.nft_program(), Some("/usr/sbin/nft"));
}

#[test]
fn namespaced_data_is_that_of_the_network() {
    let network = network(FirecrackerIpStack::V4, Some(v4(192, 168, 100, 50)));
    let data = network.namespaced_data();
    assert_eq!(data.netns_name, "fcnet");
    assert_eq!(data.veth1_name, "veth0");
    assert_eq!(data.veth2_name, "vpeer0");
    assert_eq!(*data.veth1_ip, inet(v4(10, 0, 0, 1), 24));
    assert_eq!(*data.veth2_ip, inet(v4(10, 0, 0, 2), 24));
    assert_eq!(*data.forwarded_guest_ip, Some(v4(192, 168, 100, 50)));
}

#[test]
fn addresses_of_one_family_agree() {
    assert!(of_same_family(v4(10, 0, 0, 1), v4(172, 16, 0, 1)));
    assert!(of_same_family(IpAddr::V6(1), IpAddr::V6(2)));
    assert!(!of_same_family(v4(10, 0, 0, 1), IpAddr::V6(1)));
    assert!(!of_same_family(IpAddr::V6(1), v4(10, 0, 0, 1)));
}

#[test]
fn network_is_well_formed_where_its_families_agree() {
    assert!(network(FirecrackerIpStack::V4, None).is_well_formed());
    assert!(network(FirecrackerIpStack::V4, Some(v4(192, 168, 100, 50))).is_well_formed());
    assert!(!network(FirecrackerIpStack::V4, Some(IpAddr::V6(1))).is_well_formed());

    let mut mixed_tap = network(FirecrackerIpStack::Dual, None);
    mixed_tap.tap_ip = inet(IpAddr::V6(1), 64);
    assert!(!mixed_tap.is_well_formed());

    let mut mixed_links = network(FirecrackerIpStack::Dual, None);
    mixed_links.network_type = FirecrackerNetworkType::Namespaced {
        netns_name: "fcnet".to_string(),
        veth1_name: "veth0".to_string(),
        veth2_name: "vpeer0".to_string(),
        veth1_ip: inet(IpAddr::V6(1), 64),
        veth2_ip: inet(v4(10, 0, 0, 2), 24),
        forwarded_guest_ip: None,
    };
    assert!(!mixed_links.is_well_formed());
}

#[test]
fn rule_bodies_of_another_network_differ() {
    let ours = network(FirecrackerIpStack::V4, None);
    let mut other_interface = network(FirecrackerIpStack::V4, None);
    other_interface.iface_name = "eth1".to_string();
    let mut other_pair = network(FirecrackerIpStack::V4, None);
    other_pair.network_type = FirecrackerNetworkType::Namespaced {
        netns_name: "fcnet".to_string(),
        veth1_name: "veth1".to_string(),
        veth2_name: "vpeer0".to_string(),
        veth1_ip: inet(v4(10, 0, 0, 1), 24),
        veth2_ip: inet(v4(10, 0, 0, 12), 24),
        forwarded_guest_ip: None,
    };
    let masq = outer_masq_expr(&ours, &ours.namespaced_data());
    let ingress = outer_ingress_forward_expr(&ours, &ours.namespaced_data());
    let egress = outer_egress_forward_expr(&ours, &ours.namespaced_data());
    for other in [&other_interface, &other_pair] {
        let data = other.namespaced_data();
        assert!(!same_statements(&masq, &outer_masq_expr(other, &data)));
        assert!(!same_statements(&ingress, &outer_ingress_forward_expr(other, &data)));
        assert!(!same_statements(&egress, &outer_egress_forward_expr(other, &data)));
    }
}

#[test]
fn ipv4_addresses_are_written_differently() {
    let addresses = [
        v4(1, 2, 3, 4),
        v4(12, 3, 4, 5),
        v4(1, 23, 4, 5),
        v4(1, 2, 34, 5),
        v4(1, 2, 3, 45),
        v4(123, 4, 5, 6),
        v4(1, 234, 5, 6),
        v4(0, 0, 0, 0),
        v4(10, 0, 0, 2),
        v4(100, 0, 0, 2),
    ];
    for (i, a) in addresses.iter().enumerate() {
        for (j, b) in addresses.iter().enumerate() {
            assert_eq!(a.to_string() == b.to_string(), i == j);
        }
    }
}
