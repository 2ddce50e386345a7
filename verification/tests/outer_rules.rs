use fcnet::addr::{IpAddr, IpInet};
use fcnet::namespaced::delete::delete_rules;
use fcnet::namespaced::{
    check_outer_rules, find_outer_rules, outer_egress_forward_expr, outer_ingress_forward_expr,
    outer_masq_expr, OuterRuleHandles,
};
use fcnet::network::{
    FirecrackerIpStack, FirecrackerNetwork, FirecrackerNetworkError, FirecrackerNetworkObjectType,
    FirecrackerNetworkType,
};
use fcnet::nft::{
    Expression, MetaKey, NfCmd, NfFamily, NfListObject, NfObject, Nftables, Rule, Statement,
};

fn inet4(a: u8, b: u8, c: u8, d: u8, len: u8) -> IpInet {
    IpInet::new(IpAddr::V4(u32::from_be_bytes([a, b, c, d])), len).unwrap()
}

fn the_network() -> FirecrackerNetwork {
    FirecrackerNetwork {
        nft_path: None,
        ip_stack: FirecrackerIpStack::V4,
        iface_name: "eth0".to_string(),
        tap_name: "tap0".to_string(),
        tap_ip: inet4(172, 16, 0, 1, 24),
        guest_ip: inet4(172, 16, 0, 2, 24),
        network_type: FirecrackerNetworkType::Namespaced {
            netns_name: "fcnet".to_string(),
            veth1_name: "veth0".to_string(),
            veth2_name: "vpeer0".to_string(),
            veth1_ip: inet4(10, 0, 0, 1, 24),
            veth2_ip: inet4(10, 0, 0, 2, 24),
            forwarded_guest_ip: None,
        },
    }
}

fn listed_rule(table: &str, chain: &str, expr: Vec<Statement>, handle: Option<u32>) -> NfObject {
    NfObject::ListObject(NfListObject::Rule(Rule {
        family: NfFamily::IP,
        table: table.to_string(),
        chain: chain.to_string(),
        expr,
        handle,
    }))
}

fn masq() -> Vec<Statement> {
    let network = the_network();
    outer_masq_expr(&network, &network.namespaced_data())
}

fn ingress() -> Vec<Statement> {
    let network = the_network();
    outer_ingress_forward_expr(&network, &network.namespaced_data())
}

fn egress() -> Vec<Statement> {
    let network = the_network();
    outer_egress_forward_expr(&network, &network.namespaced_data())
}

fn full_ruleset() -> Nftables {
    Nftables {
        objects: vec![
            NfObject::ListObject(NfListObject::Other),
            listed_rule("fcnet", "postrouting", masq(), Some(4)),
            listed_rule("fcnet", "filter", ingress(), Some(5)),
            listed_rule("fcnet", "filter", egress(), Some(6)),
        ],
    }
}

fn handles(masq: Option<u32>, ingress_forward: Option<u32>, egress_forward: Option<u32>) -> OuterRuleHandles {
    OuterRuleHandles { masq, ingress_forward, egress_forward }
}

fn not_found<T>(kind: FirecrackerNetworkObjectType) -> Result<T, FirecrackerNetworkError> {
    Err(FirecrackerNetworkError::ObjectNotFound(kind))
}

#[test]
fn rules_are_found_by_their_bodies() {
    let network = the_network();
    assert_eq!(find_outer_rules(&network, &full_ruleset()), handles(Some(4), Some(5), Some(6)));
    assert_eq!(check_outer_rules(&network, &full_ruleset()), Ok(handles(Some(4), Some(5), Some(6))));
}

#[test]
fn nothing_is_found_in_an_empty_ruleset() {
    let network = the_network();
    let empty = Nftables { objects: vec![] };
    assert_eq!(find_outer_rules(&network, &empty), handles(None, None, None));
    assert_eq!(
        check_outer_rules(&network, &empty),
        not_found(FirecrackerNetworkObjectType::NfMasqueradeRule)
    );
}

#[test]
fn rule_in_another_table_or_chain_is_not_found() {
    let network = the_network();
    let ruleset = Nftables {
        objects: vec![
            listed_rule("nat", "postrouting", masq(), Some(4)),
            listed_rule("fcnet", "postrouting", ingress(), Some(5)),
            listed_rule("fcnet", "forward", egress(), Some(6)),
            listed_rule("fcnet", "filter", masq(), Some(7)),
        ],
    };
    assert_eq!(find_outer_rules(&network, &ruleset), handles(None, None, None));
}

#[test]
fn rule_with_another_body_is_not_found() {
    let network = the_network();
    let mut longer = masq();
    longer.push(Statement::Accept);
    let mut other_interface = ingress();
    other_interface[0] = Statement::Match {
        left: Expression::Meta(MetaKey::Iifname),
        right: Expression::String("eth1".to_string()),
    };
    let mut unknown = egress();
    unknown[2] = Statement::Other;
    let ruleset = Nftables {
        objects: vec![
            listed_rule("fcnet", "postrouting", longer, Some(4)),
            listed_rule("fcnet", "filter", other_interface, Some(5)),
            listed_rule("fcnet", "filter", unknown, Some(6)),
            listed_rule("fcnet", "postrouting", vec![], Some(7)),
        ],
    };
    assert_eq!(find_outer_rules(&network, &ruleset), handles(None, None, None));
}

#[test]
fn last_of_several_equal_rules_gives_the_handle() {
    let network = the_network();
    let ruleset = Nftables {
        objects: vec![
            listed_rule("fcnet", "postrouting", masq(), Some(4)),
            listed_rule("fcnet", "filter", egress(), Some(5)),
            listed_rule("fcnet", "postrouting", masq(), Some(9)),
            listed_rule("fcnet", "filter", ingress(), Some(6)),
            listed_rule("fcnet", "filter", egress(), Some(7)),
        ],
    };
    assert_eq!(find_outer_rules(&network, &ruleset), handles(Some(9), Some(6), Some(7)));
}

#[test]
fn rule_listed_without_handle_counts_as_missing() {
    let network = the_network();
    let ruleset = Nftables {
        objects: vec![
            listed_rule("fcnet", "postrouting", masq(), Some(4)),
            listed_rule("fcnet", "filter", ingress(), Some(5)),
            listed_rule("fcnet", "filter", ingress(), None),
            listed_rule("fcnet", "filter", egress(), Some(6)),
        ],
    };
    assert_eq!(find_outer_rules(&network, &ruleset), handles(Some(4), None, Some(6)));
    assert_eq!(
        check_outer_rules(&network, &ruleset),
        not_found(FirecrackerNetworkObjectType::NfIngressForwardRule)
    );
}

#[test]
fn rules_in_commands_are_not_found() {
    let network = the_network();
    let rule = |chain: &str, expr, handle| NfListObject::Rule(Rule {
        family: NfFamily::IP,
        table: "fcnet".to_string(),
        chain: chain.to_string(),
        expr,
        handle,
    });
    let ruleset = Nftables {
        objects: vec![
            NfObject::CmdObject(NfCmd::Add(rule("postrouting", masq(), Some(4)))),
            NfObject::CmdObject(NfCmd::Delete(rule("filter", ingress(), Some(5)))),
        ],
    };
    assert_eq!(find_outer_rules(&network, &ruleset), handles(None, None, None));
}

#[test]
fn first_missing_rule_is_reported() {
    let network = the_network();
    let without = |skip: usize| {
        let mut ruleset = full_ruleset();
        ruleset.objects.remove(skip);
        ruleset
    };
    assert_eq!(
        check_outer_rules(&network, &without(1)),
        not_found(FirecrackerNetworkObjectType::NfMasqueradeRule)
    );
    assert_eq!(
        check_outer_rules(&network, &without(2)),
        not_found(FirecrackerNetworkObjectType::NfIngressForwardRule)
    );
    assert_eq!(
        check_outer_rules(&network, &without(3)),
        not_found(FirecrackerNetworkObjectType::NfEgressForwardRule)
    );
    let mut only_egress = full_ruleset();
    only_egress.objects.remove(1);
    only_egress.objects.remove(1);
    assert_eq!(
        check_outer_rules(&network, &only_egress),
        not_found(FirecrackerNetworkObjectType::NfMasqueradeRule)
    );
}

#[test]
fn delete_batch_names_the_three_rules_by_handle() {
    let network = the_network();
    let batch = delete_rules(&network, &full_ruleset()).unwrap();
    let delete = |chain: &str, expr, handle| {
        NfObject::CmdObject(NfCmd::Delete(NfListObject::Rule(Rule {
            family: NfFamily::IP,
            table: "fcnet".to_string(),
            chain: chain.to_string(),
            expr,
            handle: Some(handle),
        })))
    };
    assert_eq!(
        batch.to_nftables().objects,
        vec![
            delete("postrouting", masq(), 4),
            delete("filter", ingress(), 5),
            delete("filter", egress(), 6),
        ]
    );
}

#[test]
fn delete_batch_is_not_built_where_a_rule_is_missing() {
    let network = the_network();
    let mut ruleset = full_ruleset();
    ruleset.objects.remove(3);
    assert_eq!(
        delete_rules(&network, &ruleset),
        not_found(FirecrackerNetworkObjectType::NfEgressForwardRule)
    );
    assert_eq!(
        delete_rules(&network, &Nftables { objects: vec![] }),
        not_found(FirecrackerNetworkObjectType::NfMasqueradeRule)
    );
}
