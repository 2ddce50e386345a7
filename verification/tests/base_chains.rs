use fcnet::addr::{IpAddr, IpInet};
use fcnet::network::{
    FirecrackerIpStack, FirecrackerNetwork, FirecrackerNetworkError, FirecrackerNetworkObjectType,
    FirecrackerNetworkType, NFT_FILTER_CHAIN, NFT_POSTROUTING_CHAIN, NFT_PREROUTING_CHAIN,
    NFT_TABLE,
};
use fcnet::nft::{
    Batch, Chain, NfChainPolicy, NfChainType, NfCmd, NfFamily, NfHook, NfListObject, NfObject,
    Nftables, Table,
};
use fcnet::util::{add_base_chains_if_needed, check_base_chains};

fn inet4(a: u8, b: u8, c: u8, d: u8, len: u8) -> IpInet {
    IpInet::new(IpAddr::V4(u32::from_be_bytes([a, b, c, d])), len).unwrap()
}

fn network_of(ip_stack: FirecrackerIpStack) -> FirecrackerNetwork {
    FirecrackerNetwork {
        nft_path: None,
        ip_stack,
        iface_name: "eth0".to_string(),
        tap_name: "tap0".to_string(),
        tap_ip: inet4(172, 16, 0, 1, 24),
        guest_ip: inet4(172, 16, 0, 2, 24),
        network_type: FirecrackerNetworkType::Namespaced {
            netns_name: "fcnet".to_string(),
            veth1_name: "veth0".to_string(),
            veth2_name: "vpeer0".to_string(),
            veth1_ip: inet4(10, 0, 0, 1, 24),
            veth2_ip: inet4(10, 0, 0, 2, 24),
            forwarded_guest_ip: None,
        },
    }
}

fn table(family: NfFamily, name: &str, handle: Option<u32>) -> NfListObject {
    NfListObject::Table(Table { family, name: name.to_string(), handle })
}

fn chain(
    family: NfFamily,
    table: &str,
    name: &str,
    chain_type: NfChainType,
    hook: NfHook,
    prio: i32,
    handle: Option<u32>,
) -> NfListObject {
    NfListObject::Chain(Chain {
        family,
        table: table.to_string(),
        name: name.to_string(),
        handle,
        chain_type: Some(chain_type),
        hook: Some(hook),
        prio: Some(prio),
        policy: Some(NfChainPolicy::Accept),
    })
}

fn postrouting(family: NfFamily, handle: Option<u32>) -> NfListObject {
    chain(family, "fcnet", "postrouting", NfChainType::NAT, NfHook::Postrouting, 100, handle)
}

fn filter(family: NfFamily, handle: Option<u32>) -> NfListObject {
    chain(family, "fcnet", "filter", NfChainType::Filter, NfHook::Forward, 0, handle)
}

fn listing(objects: Vec<NfListObject>) -> Nftables {
    Nftables { objects: objects.into_iter().map(NfObject::ListObject).collect() }
}

fn add(object: NfListObject) -> NfObject {
    NfObject::CmdObject(NfCmd::Add(object))
}

fn ensured(network: &FirecrackerNetwork, current: &Nftables) -> Vec<NfObject> {
    let mut batch = Batch::new();
    assert_eq!(add_base_chains_if_needed(network, current, &mut batch), Ok(()));
    batch.to_nftables().objects
}

fn not_found(kind: FirecrackerNetworkObjectType) -> Result<(), FirecrackerNetworkError> {
    Err(FirecrackerNetworkError::ObjectNotFound(kind))
}

#[test]
fn names_are_fixed() {
    assert_eq!(NFT_TABLE, "fcnet");
    assert_eq!(NFT_POSTROUTING_CHAIN, "postrouting");
    assert_eq!(NFT_PREROUTING_CHAIN, "prerouting");
    assert_eq!(NFT_FILTER_CHAIN, "filter");
}

#[test]
fn empty_ruleset_gets_table_and_both_chains() {
    let network = network_of(FirecrackerIpStack::V4);
    assert_eq!(
        ensured(&network, &listing(vec![])),
        vec![
            add(table(NfFamily::IP, "fcnet", None)),
            add(postrouting(NfFamily::IP, None)),
            add(filter(NfFamily::IP, None)),
        ]
    );
}

#[test]
fn chains_are_made_in_the_family_of_the_network() {
    let network = network_of(FirecrackerIpStack::Dual);
    assert_eq!(
        ensured(&network, &listing(vec![])),
        vec![
            add(table(NfFamily::INet, "fcnet", None)),
            add(postrouting(NfFamily::INet, None)),
            add(filter(NfFamily::INet, None)),
        ]
    );
    let network = network_of(FirecrackerIpStack::V6);
    assert_eq!(ensured(&network, &listing(vec![]))[0], add(table(NfFamily::IP6, "fcnet", None)));
}

#[test]
fn what_is_listed_is_not_added_again() {
    let network = network_of(FirecrackerIpStack::V4);
    let current = listing(vec![table(NfFamily::IP, "fcnet", Some(1))]);
    assert_eq!(
        ensured(&network, &current),
        vec![add(postrouting(NfFamily::IP, None)), add(filter(NfFamily::IP, None))]
    );
    let current =
        listing(vec![table(NfFamily::IP, "fcnet", Some(1)), filter(NfFamily::IP, Some(3))]);
    assert_eq!(ensured(&network, &current), vec![add(postrouting(NfFamily::IP, None))]);
    let current =
        listing(vec![table(NfFamily::IP, "fcnet", Some(1)), postrouting(NfFamily::IP, Some(2))]);
    assert_eq!(ensured(&network, &current), vec![add(filter(NfFamily::IP, None))]);
}

#[test]
fn commands_are_appended_to_the_batch() {
    let network = network_of(FirecrackerIpStack::V4);
    let mut batch = Batch::new();
    batch.add(table(NfFamily::IP, "other", None));
    let current = listing(vec![
        table(NfFamily::IP, "fcnet", Some(1)),
        postrouting(NfFamily::IP, Some(2)),
    ]);
    assert_eq!(add_base_chains_if_needed(&network, &current, &mut batch), Ok(()));
    assert_eq!(
        batch.to_nftables().objects,
        vec![add(table(NfFamily::IP, "other", None)), add(filter(NfFamily::IP, None))]
    );
}

#[test]
fn table_of_another_family_does_not_count() {
    let network = network_of(FirecrackerIpStack::V4);
    let current = listing(vec![
        table(NfFamily::IP6, "fcnet", Some(1)),
        postrouting(NfFamily::IP, Some(2)),
        filter(NfFamily::IP, Some(3)),
    ]);
    assert_eq!(ensured(&network, &current), vec![add(table(NfFamily::IP, "fcnet", None))]);
    assert_eq!(
        check_base_chains(&network, &current),
        not_found(FirecrackerNetworkObjectType::NfTable)
    );
}

#[test]
fn table_of_another_name_does_not_count() {
    let network = network_of(FirecrackerIpStack::V4);
    let current = listing(vec![
        table(NfFamily::IP, "filter", Some(1)),
        postrouting(NfFamily::IP, Some(2)),
        filter(NfFamily::IP, Some(3)),
    ]);
    assert_eq!(
        check_base_chains(&network, &current),
        not_found(FirecrackerNetworkObjectType::NfTable)
    );
}

#[test]
fn chain_of_another_table_does_not_count() {
    let network = network_of(FirecrackerIpStack::V4);
    let current = listing(vec![
        table(NfFamily::IP, "fcnet", Some(1)),
        chain(NfFamily::IP, "nat", "postrouting", NfChainType::NAT, NfHook::Postrouting, 100, Some(2)),
        chain(NfFamily::IP, "nat", "filter", NfChainType::Filter, NfHook::Forward, 0, Some(3)),
    ]);
    assert_eq!(
        ensured(&network, &current),
        vec![add(postrouting(NfFamily::IP, None)), add(filter(NfFamily::IP, None))]
    );
    assert_eq!(
        check_base_chains(&network, &current),
        not_found(FirecrackerNetworkObjectType::NfPostroutingChain)
    );
}

#[test]
fn chain_is_found_by_name_and_table_alone() {
    let network = network_of(FirecrackerIpStack::V4);
    let current = listing(vec![
        table(NfFamily::IP, "fcnet", Some(1)),
        chain(NfFamily::IP6, "fcnet", "postrouting", NfChainType::Filter, NfHook::Input, 7, None),
        chain(NfFamily::INet, "fcnet", "filter", NfChainType::NAT, NfHook::Output, -5, None),
    ]);
    assert_eq!(ensured(&network, &current), vec![]);
    assert_eq!(check_base_chains(&network, &current), Ok(()));
}

#[test]
fn commands_in_a_ruleset_are_not_taken_for_elements() {
    let network = network_of(FirecrackerIpStack::V4);
    let current = Nftables {
        objects: vec![
            add(table(NfFamily::IP, "fcnet", None)),
            add(postrouting(NfFamily::IP, None)),
            add(filter(NfFamily::IP, None)),
            NfObject::ListObject(NfListObject::Other),
        ],
    };
    assert_eq!(
        check_base_chains(&network, &current),
        not_found(FirecrackerNetworkObjectType::NfTable)
    );
    assert_eq!(ensured(&network, &current).len(), 3);
}

#[test]
fn check_reports_the_first_that_is_missing() {
    let network = network_of(FirecrackerIpStack::V4);
    assert_eq!(
        check_base_chains(&network, &listing(vec![])),
        not_found(FirecrackerNetworkObjectType::NfTable)
    );
    assert_eq!(
        check_base_chains(&network, &listing(vec![table(NfFamily::IP, "fcnet", Some(1))])),
        not_found(FirecrackerNetworkObjectType::NfPostroutingChain)
    );
    assert_eq!(
        check_base_chains(
            &network,
            &listing(vec![table(NfFamily::IP, "fcnet", Some(1)), filter(NfFamily::IP, Some(2))])
        ),
        not_found(FirecrackerNetworkObjectType::NfPostroutingChain)
    );
    assert_eq!(
        check_base_chains(
            &network,
            &listing(vec![
                table(NfFamily::IP, "fcnet", Some(1)),
                postrouting(NfFamily::IP, Some(2))
            ])
        ),
        not_found(FirecrackerNetworkObjectType::NfFilterChain)
    );
}

#[test]
fn check_passes_where_all_three_are_listed() {
    let network = network_of(FirecrackerIpStack::V4);
    let current = listing(vec![
        NfListObject::Other,
        filter(NfFamily::IP, Some(3)),
        postrouting(NfFamily::IP, Some(2)),
        table(NfFamily::IP, "fcnet", Some(1)),
    ]);
    assert_eq!(check_base_chains(&network, &current), Ok(()));
}

#[test]
fn ensuring_twice_adds_nothing_the_second_time() {
    let network = network_of(FirecrackerIpStack::V4);
    let before = listing(vec![NfListObject::Other, table(NfFamily::IP, "fcnet", Some(1))]);
    let first = ensured(&network, &before);
    assert_eq!(first.len(), 2);
    // the ruleset once the first batch is applied: what was listed, and what was added
    let mut objects = before.objects.clone();
    objects.push(NfObject::ListObject(postrouting(NfFamily::IP, Some(2))));
    objects.push(NfObject::ListObject(filter(NfFamily::IP, Some(3))));
    let after = Nftables { objects };
    assert_eq!(ensured(&network, &after), vec![]);
    assert_eq!(check_base_chains(&network, &after), Ok(()));
}

#[test]
fn batch_keeps_its_commands_in_order() {
    let mut batch = Batch::new();
    batch.add(table(NfFamily::IP, "a", None));
    batch.delete(table(NfFamily::IP, "b", Some(4)));
    batch.add(table(NfFamily::IP6, "c", None));
    assert_eq!(
        batch.to_nftables(),
        Nftables {
            objects: vec![
                add(table(NfFamily::IP, "a", None)),
                NfObject::CmdObject(NfCmd::Delete(table(NfFamily::IP, "b", Some(4)))),
                add(table(NfFamily::IP6, "c", None)),
            ]
        }
    );
    assert_eq!(Batch::new().to_nftables(), Nftables { objects: vec![] });
}
