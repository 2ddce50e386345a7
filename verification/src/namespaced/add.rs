//! Adding a network: the links and the namespace, the devices and routes inside the
//! namespace, the rules of both namespaces, and the route to a forwarded address.

use crate::addr::IpAddr;
use crate::driver::{
    conclude, conclude_with, copy_program, failure, failure_of, followed_by, proceed,
    proceed_with, program_view, Action, ActionView, Outcome, OutcomeView, Step, StepView,
};
use crate::namespaced::{
    inner_dnat, inner_dnat_expr, inner_snat, inner_snat_expr, network_egress_forward,
    network_ingress_forward, network_masq, outer_egress_forward_expr,
    outer_ingress_forward_expr, outer_masq_expr, rule, rule_object,
};
use crate::network::{
    of_same_family, same_family, FirecrackerNetwork, FirecrackerNetworkError, NFT_FILTER_CHAIN,
    NFT_POSTROUTING_CHAIN, NFT_PREROUTING_CHAIN, NFT_TABLE,
};
use crate::nft::{
    add_cmd, Batch, NfChainType, NfCmdView, NfFamily, NfHook, NfListObjectView, NfObjectView,
    Nftables,
};
use crate::util::{
    add_base_chains_if_needed, base_table, chain_object, family_of_stack, filter_chain,
    get_link_index, has_chain, has_table, link_index, missing_base_chains, postrouting_chain,
    prerouting_chain, table_object, FirecrackerNetworkExt, POSTROUTING_PRIORITY,
    PREROUTING_PRIORITY,
};
use vstd::prelude::*;

verus! {

/// How far the setup of the devices inside the namespace has come.
#[derive(Clone, Copy, Debug, PartialEq, Eq, Structural)]
pub enum InnerInterfacesPhase {
    /// Nothing has been asked for yet.
    Start,
    /// The TAP device is being created.
    CreatingTap,
    /// The connection for link requests is being opened.
    Connecting,
    /// The inner end of the link pair is being looked up.
    FindingVeth2,
    /// The inner end of the link pair, of this index, is being given its address.
    AddressingVeth2(u32),
    /// The inner end of the link pair is being brought up.
    RaisingVeth2,
    /// The default route is being added.
    AddingDefaultRoute,
    /// The TAP device is being looked up.
    FindingTap,
    /// The TAP device, of this index, is being given its address.
    AddressingTap(u32),
    /// The TAP device is being brought up.
    RaisingTap,
}

/// The action that adds the default route through an address.
pub open spec fn default_route(gateway: IpAddr) -> ActionView {
    match gateway {
        IpAddr::V4(gateway) => ActionView::AddDefaultRouteV4 { gateway },
        IpAddr::V6(gateway) => ActionView::AddDefaultRouteV6 { gateway },
    }
}

/// The next step of the setup of the devices inside the namespace.
///
/// In order: the TAP device is created and a connection for link requests is opened; the
/// inner end of the link pair gets its address and is brought up; the default route goes
/// through the outer end of the pair; the TAP device gets its address and is brought up.
pub open spec fn inner_interfaces_step(
    network: &FirecrackerNetwork,
    phase: InnerInterfacesPhase,
    outcome: OutcomeView,
) -> StepView<InnerInterfacesPhase> {
    match phase {
        InnerInterfacesPhase::Start => StepView::Perform {
            action: ActionView::CreateTap { tap_name: network.tap_name@ },
            next: InnerInterfacesPhase::CreatingTap,
        },
        InnerInterfacesPhase::CreatingTap => proceed(
            outcome,
            FirecrackerNetworkError::TapDeviceError,
            ActionView::ConnectNetlink,
            InnerInterfacesPhase::Connecting,
        ),
        InnerInterfacesPhase::Connecting => proceed(
            outcome,
            FirecrackerNetworkError::IoError,
            ActionView::GetLinkIndex { link: network.veth2_name() },
            InnerInterfacesPhase::FindingVeth2,
        ),
        InnerInterfacesPhase::FindingVeth2 => match link_index(outcome) {
            Ok(index) => StepView::Perform {
                action: ActionView::AddAddress {
                    index,
                    address: network.veth2_ip().addr(),
                    prefix_len: network.veth2_ip().len(),
                },
                next: InnerInterfacesPhase::AddressingVeth2(index),
            },
            Err(error) => StepView::Finish(Err(error)),
        },
        InnerInterfacesPhase::AddressingVeth2(index) => proceed(
            outcome,
            FirecrackerNetworkError::NetlinkOperationError,
            ActionView::SetLinkUp { index },
            InnerInterfacesPhase::RaisingVeth2,
        ),
        InnerInterfacesPhase::RaisingVeth2 => proceed(
            outcome,
            FirecrackerNetworkError::NetlinkOperationError,
            default_route(network.veth1_ip().addr()),
            InnerInterfacesPhase::AddingDefaultRoute,
        ),
        InnerInterfacesPhase::AddingDefaultRoute => proceed(
            outcome,
            FirecrackerNetworkError::NetlinkOperationError,
            ActionView::GetLinkIndex { link: network.tap_name@ },
            InnerInterfacesPhase::FindingTap,
        ),
        InnerInterfacesPhase::FindingTap => match link_index(outcome) {
            Ok(index) => StepView::Perform {
                action: ActionView::AddAddress {
                    index,
                    address: network.tap_ip.addr(),
                    prefix_len: network.tap_ip.len(),
                },
                next: InnerInterfacesPhase::AddressingTap(index),
            },
            Err(error) => StepView::Finish(Err(error)),
        },
        InnerInterfacesPhase::AddressingTap(index) => proceed(
            outcome,
            FirecrackerNetworkError::NetlinkOperationError,
            ActionView::SetLinkUp { index },
            InnerInterfacesPhase::RaisingTap,
        ),
        InnerInterfacesPhase::RaisingTap => conclude(
            outcome,
            FirecrackerNetworkError::NetlinkOperationError,
        ),
    }
}

/// The next step of the setup of the devices inside the namespace.
pub fn setup_inner_interfaces(
    network: &FirecrackerNetwork,
    phase: InnerInterfacesPhase,
    outcome: &Outcome,
) -> (step: Step<InnerInterfacesPhase>)
    ensures
        step.deep_view() == inner_interfaces_step(network, phase, outcome.deep_view()),
{
    let namespaced_data = network.namespaced_data();
    match phase {
        InnerInterfacesPhase::Start => Step::Perform {
            action: Action::CreateTap { tap_name: network.tap_name.clone() },
            next: InnerInterfacesPhase::CreatingTap,
        },
        InnerInterfacesPhase::CreatingTap => proceed_with(
            outcome,
            FirecrackerNetworkError::TapDeviceError,
            Action::ConnectNetlink,
            InnerInterfacesPhase::Connecting,
        ),
        InnerInterfacesPhase::Connecting => proceed_with(
            outcome,
            FirecrackerNetworkError::IoError,
            Action::GetLinkIndex { link: namespaced_data.veth2_name.to_owned() },
            InnerInterfacesPhase::FindingVeth2,
        ),
        InnerInterfacesPhase::FindingVeth2 => match get_link_index(outcome) {
            Ok(veth2_idx) => Step::Perform {
                action: Action::AddAddress {
                    index: veth2_idx,
                    address: namespaced_data.veth2_ip.address(),
                    prefix_len: namespaced_data.veth2_ip.network_length(),
                },
                next: InnerInterfacesPhase::AddressingVeth2(veth2_idx),
            },
            Err(error) => Step::Finish(Err(error)),
        },
        InnerInterfacesPhase::AddressingVeth2(veth2_idx) => proceed_with(
            outcome,
            FirecrackerNetworkError::NetlinkOperationError,
            Action::SetLinkUp { index: veth2_idx },
            InnerInterfacesPhase::RaisingVeth2,
        ),
        InnerInterfacesPhase::RaisingVeth2 => proceed_with(
            outcome,
            FirecrackerNetworkError::NetlinkOperationError,
            match namespaced_data.veth1_ip.address() {
                IpAddr::V4(gateway) => Action::AddDefaultRouteV4 { gateway },
                IpAddr::V6(gateway) => Action::AddDefaultRouteV6 { gateway },
            },
            InnerInterfacesPhase::AddingDefaultRoute,
        ),
        InnerInterfacesPhase::AddingDefaultRoute => proceed_with(
            outcome,
            FirecrackerNetworkError::NetlinkOperationError,
            Action::GetLinkIndex { link: network.tap_name.clone() },
            InnerInterfacesPhase::FindingTap,
        ),
        InnerInterfacesPhase::FindingTap => match get_link_index(outcome) {
            Ok(tap_idx) => Step::Perform {
                action: Action::AddAddress {
                    index: tap_idx,
                    address: network.tap_ip.address(),
                    prefix_len: network.tap_ip.network_length(),
                },
                next: InnerInterfacesPhase::AddressingTap(tap_idx),
            },
            Err(error) => Step::Finish(Err(error)),
        },
        InnerInterfacesPhase::AddressingTap(tap_idx) => proceed_with(
            outcome,
            FirecrackerNetworkError::NetlinkOperationError,
            Action::SetLinkUp { index: tap_idx },
            InnerInterfacesPhase::RaisingTap,
        ),
        InnerInterfacesPhase::RaisingTap => conclude_with(
            outcome,
            FirecrackerNetworkError::NetlinkOperationError,
        ),
    }
}

/// The commands that set up the packet filter of the inner namespace: the table, the chain
/// for source translation and the rule in it, and for a network with a forwarded address
/// the chain for destination translation and the rule in it. The chains come before the
/// rules.
pub open spec fn inner_commands(network: &FirecrackerNetwork) -> Seq<NfObjectView> {
    let family = family_of_stack(network.ip_stack);
    let snat = rule_object(
        family,
        NFT_POSTROUTING_CHAIN@,
        inner_snat(
            network.veth2_name(),
            network.guest_ip.addr(),
            network.veth2_ip().addr(),
            family,
        ),
        None,
    );
    match network.forwarded_guest_ip() {
        Some(forwarded) => seq![
            add_cmd(base_table(family)),
            add_cmd(postrouting_chain(family)),
            add_cmd(prerouting_chain(family)),
            add_cmd(snat),
            add_cmd(
                rule_object(
                    family,
                    NFT_PREROUTING_CHAIN@,
                    inner_dnat(network.veth2_name(), forwarded, network.guest_ip.addr(), family),
                    None,
                ),
            ),
        ],
        None => seq![
            add_cmd(base_table(family)),
            add_cmd(postrouting_chain(family)),
            add_cmd(snat),
        ],
    }
}

/// The batch that sets up the packet filter of the inner namespace.
pub fn inner_batch(network: &FirecrackerNetwork) -> (batch: Batch)
    ensures
        batch.deep_view() == inner_commands(network),
{
    let namespaced_data = network.namespaced_data();
    let nf_family = network.nf_family();
    let mut batch = Batch::new();

    batch.add(table_object(nf_family));

    batch.add(
        chain_object(
            nf_family,
            NFT_POSTROUTING_CHAIN,
            NfChainType::NAT,
            NfHook::Postrouting,
            POSTROUTING_PRIORITY,
        ),
    );

    if let Some(_) = namespaced_data.forwarded_guest_ip {
        batch.add(
            chain_object(
                nf_family,
                NFT_PREROUTING_CHAIN,
                NfChainType::NAT,
                NfHook::Prerouting,
                PREROUTING_PRIORITY,
            ),
        );
    }

    batch.add(
        rule(
            nf_family,
            NFT_POSTROUTING_CHAIN,
            inner_snat_expr(
                namespaced_data.veth2_name.to_owned(),
                network.guest_ip,
                *namespaced_data.veth2_ip,
                nf_family,
            ),
            None,
        ),
    );

    if let Some(forwarded_guest_ip) = namespaced_data.forwarded_guest_ip {
        batch.add(
            rule(
                nf_family,
                NFT_PREROUTING_CHAIN,
                inner_dnat_expr(
                    namespaced_data.veth2_name.to_owned(),
                    *forwarded_guest_ip,
                    network.guest_ip,
                    nf_family,
                ),
                None,
            ),
        );
    }

    assert(batch.deep_view() =~= inner_commands(network));
    batch
}

/// How far the setup of the packet filter inside the namespace has come.
#[derive(Clone, Copy, Debug, PartialEq, Eq, Structural)]
pub enum InnerNfRulesPhase {
    /// Nothing has been asked for yet.
    Start,
    /// The commands are being applied.
    AddingRules,
}

/// The next step of the setup of the packet filter inside the namespace: its commands are
/// applied as a whole.
pub open spec fn inner_nf_rules_step(
    network: &FirecrackerNetwork,
    phase: InnerNfRulesPhase,
    outcome: OutcomeView,
) -> StepView<InnerNfRulesPhase> {
    match phase {
        InnerNfRulesPhase::Start => StepView::Perform {
            action: ActionView::ApplyRuleset {
                ruleset: inner_commands(network),
                program: program_view(network.nft_path),
            },
            next: InnerNfRulesPhase::AddingRules,
        },
        InnerNfRulesPhase::AddingRules => conclude(outcome, FirecrackerNetworkError::NftablesError),
    }
}

/// The next step of the setup of the packet filter inside the namespace.
pub fn setup_inner_nf_rules(
    network: &FirecrackerNetwork,
    phase: InnerNfRulesPhase,
    outcome: &Outcome,
) -> (step: Step<InnerNfRulesPhase>)
    ensures
        step.deep_view() == inner_nf_rules_step(network, phase, outcome.deep_view()),
{
    match phase {
        InnerNfRulesPhase::Start => Step::Perform {
            action: Action::ApplyRuleset {
                ruleset: inner_batch(network).to_nftables(),
                program: copy_program(network.nft_program()),
            },
            next: InnerNfRulesPhase::AddingRules,
        },
        InnerNfRulesPhase::AddingRules => conclude_with(
            outcome,
            FirecrackerNetworkError::NftablesError,
        ),
    }
}

/// How far the work inside the namespace has come.
#[derive(Clone, Copy, Debug, PartialEq, Eq, Structural)]
pub enum InnerPhase {
    /// Nothing has been asked for yet.
    Start,
    /// The devices are being set up.
    Interfaces(InnerInterfacesPhase),
    /// The packet filter is being set up.
    NfRules(InnerNfRulesPhase),
}

/// The first step of the setup of the packet filter inside the namespace, as a step of the
/// work inside the namespace.
pub open spec fn begin_inner_nf_rules(network: &FirecrackerNetwork) -> StepView<InnerPhase> {
    followed_by(
        inner_nf_rules_step(network, InnerNfRulesPhase::Start, OutcomeView::Done),
        |phase: InnerNfRulesPhase| InnerPhase::NfRules(phase),
        StepView::Finish(Ok(())),
    )
}

/// The next step of the work inside the namespace: the devices are set up, and once they
/// are, the packet filter.
pub open spec fn inner_step(
    network: &FirecrackerNetwork,
    phase: InnerPhase,
    outcome: OutcomeView,
) -> StepView<InnerPhase> {
    match phase {
        InnerPhase::Start => followed_by(
            inner_interfaces_step(network, InnerInterfacesPhase::Start, outcome),
            |phase: InnerInterfacesPhase| InnerPhase::Interfaces(phase),
            begin_inner_nf_rules(network),
        ),
        InnerPhase::Interfaces(phase) => followed_by(
            inner_interfaces_step(network, phase, outcome),
            |phase: InnerInterfacesPhase| InnerPhase::Interfaces(phase),
            begin_inner_nf_rules(network),
        ),
        InnerPhase::NfRules(phase) => followed_by(
            inner_nf_rules_step(network, phase, outcome),
            |phase: InnerNfRulesPhase| InnerPhase::NfRules(phase),
            StepView::Finish(Ok(())),
        ),
    }
}

fn inner_nf_rules_in_turn(
    network: &FirecrackerNetwork,
    phase: InnerNfRulesPhase,
    outcome: &Outcome,
) -> (step: Step<InnerPhase>)
    ensures
        step.deep_view() == followed_by(
            inner_nf_rules_step(network, phase, outcome.deep_view()),
            |phase: InnerNfRulesPhase| InnerPhase::NfRules(phase),
            StepView::Finish(Ok(())),
        ),
{
    match setup_inner_nf_rules(network, phase, outcome) {
        Step::Perform { action, next } => Step::Perform { action, next: InnerPhase::NfRules(next) },
        Step::Finish(result) => Step::Finish(result),
    }
}

fn inner_interfaces_in_turn(
    network: &FirecrackerNetwork,
    phase: InnerInterfacesPhase,
    outcome: &Outcome,
) -> (step: Step<InnerPhase>)
    ensures
        step.deep_view() == followed_by(
            inner_interfaces_step(network, phase, outcome.deep_view()),
            |phase: InnerInterfacesPhase| InnerPhase::Interfaces(phase),
            begin_inner_nf_rules(network),
        ),
{
    match setup_inner_interfaces(network, phase, outcome) {
        Step::Perform { action, next } => Step::Perform {
            action,
            next: InnerPhase::Interfaces(next),
        },
        Step::Finish(Err(error)) => Step::Finish(Err(error)),
        Step::Finish(Ok(_)) => inner_nf_rules_in_turn(
            network,
            InnerNfRulesPhase::Start,
            &Outcome::Done,
        ),
    }
}

/// The next step of the work inside the namespace. It is carried out on a thread that has
/// entered the namespace.
pub fn setup_inner(network: &FirecrackerNetwork, phase: InnerPhase, outcome: &Outcome) -> (step:
    Step<InnerPhase>)
    ensures
        step.deep_view() == inner_step(network, phase, outcome.deep_view()),
{
    match phase {
        InnerPhase::Start => inner_interfaces_in_turn(
            network,
            InnerInterfacesPhase::Start,
            outcome,
        ),
        InnerPhase::Interfaces(phase) => inner_interfaces_in_turn(network, phase, outcome),
        InnerPhase::NfRules(phase) => inner_nf_rules_in_turn(network, phase, outcome),
    }
}

/// How far the setup of the link pair in the outer namespace has come.
#[derive(Clone, Copy, Debug, PartialEq, Eq, Structural)]
pub enum OuterInterfacesPhase {
    /// Nothing has been asked for yet.
    Start,
    /// The link pair is being created.
    AddingVeth,
    /// The outer end of the pair is being looked up.
    FindingVeth1,
    /// The outer end of the pair, of this index, is being given its address.
    AddressingVeth1(u32),
    /// The outer end of the pair is being brought up.
    RaisingVeth1,
    /// The inner end of the pair is being looked up.
    FindingVeth2,
    /// The inner end of the pair is being moved into the namespace.
    MovingVeth2,
}

/// The next step of the setup of the link pair.
///
/// In order: the pair is created; its outer end gets its address and is brought up; its
/// inner end is looked up, and only then moved into the namespace.
pub open spec fn outer_interfaces_step(
    network: &FirecrackerNetwork,
    phase: OuterInterfacesPhase,
    outcome: OutcomeView,
) -> StepView<OuterInterfacesPhase> {
    match phase {
        OuterInterfacesPhase::Start => StepView::Perform {
            action: ActionView::AddVeth {
                veth1_name: network.veth1_name(),
                veth2_name: network.veth2_name(),
            },
            next: OuterInterfacesPhase::AddingVeth,
        },
        OuterInterfacesPhase::AddingVeth => proceed(
            outcome,
            FirecrackerNetworkError::NetlinkOperationError,
            ActionView::GetLinkIndex { link: network.veth1_name() },
            OuterInterfacesPhase::FindingVeth1,
        ),
        OuterInterfacesPhase::FindingVeth1 => match link_index(outcome) {
            Ok(index) => StepView::Perform {
                action: ActionView::AddAddress {
                    index,
                    address: network.veth1_ip().addr(),
                    prefix_len: network.veth1_ip().len(),
                },
                next: OuterInterfacesPhase::AddressingVeth1(index),
            },
            Err(error) => StepView::Finish(Err(error)),
        },
        OuterInterfacesPhase::AddressingVeth1(index) => proceed(
            outcome,
            FirecrackerNetworkError::NetlinkOperationError,
            ActionView::SetLinkUp { index },
            OuterInterfacesPhase::RaisingVeth1,
        ),
        OuterInterfacesPhase::RaisingVeth1 => proceed(
            outcome,
            FirecrackerNetworkError::NetlinkOperationError,
            ActionView::GetLinkIndex { link: network.veth2_name() },
            OuterInterfacesPhase::FindingVeth2,
        ),
        OuterInterfacesPhase::FindingVeth2 => match link_index(outcome) {
            Ok(index) => StepView::Perform {
                action: ActionView::MoveLinkToNetns { index, netns_name: network.netns_name() },
                next: OuterInterfacesPhase::MovingVeth2,
            },
            Err(error) => StepView::Finish(Err(error)),
        },
        OuterInterfacesPhase::MovingVeth2 => conclude(
            outcome,
            FirecrackerNetworkError::NetlinkOperationError,
        ),
    }
}

/// The next step of the setup of the link pair in the outer namespace.
pub fn setup_outer_interfaces(
    network: &FirecrackerNetwork,
    phase: OuterInterfacesPhase,
    outcome: &Outcome,
) -> (step: Step<OuterInterfacesPhase>)
    ensures
        step.deep_view() == outer_interfaces_step(network, phase, outcome.deep_view()),
{
    let namespaced_data = network.namespaced_data();
    match phase {
        OuterInterfacesPhase::Start => Step::Perform {
            action: Action::AddVeth {
                veth1_name: namespaced_data.veth1_name.to_owned(),
                veth2_name: namespaced_data.veth2_name.to_owned(),
            },
            next: OuterInterfacesPhase::AddingVeth,
        },
        OuterInterfacesPhase::AddingVeth => proceed_with(
            outcome,
            FirecrackerNetworkError::NetlinkOperationError,
            Action::GetLinkIndex { link: namespaced_data.veth1_name.to_owned() },
            OuterInterfacesPhase::FindingVeth1,
        ),
        OuterInterfacesPhase::FindingVeth1 => match get_link_index(outcome) {
            Ok(veth1_idx) => Step::Perform {
                action: Action::AddAddress {
                    index: veth1_idx,
                    address: namespaced_data.veth1_ip.address(),
                    prefix_len: namespaced_data.veth1_ip.network_length(),
                },
                next: OuterInterfacesPhase::AddressingVeth1(veth1_idx),
            },
            Err(error) => Step::Finish(Err(error)),
        },
        OuterInterfacesPhase::AddressingVeth1(veth1_idx) => proceed_with(
            outcome,
            FirecrackerNetworkError::NetlinkOperationError,
            Action::SetLinkUp { index: veth1_idx },
            OuterInterfacesPhase::RaisingVeth1,
        ),
        OuterInterfacesPhase::RaisingVeth1 => proceed_with(
            outcome,
            FirecrackerNetworkError::NetlinkOperationError,
            Action::GetLinkIndex { link: namespaced_data.veth2_name.to_owned() },
            OuterInterfacesPhase::FindingVeth2,
        ),
        OuterInterfacesPhase::FindingVeth2 => match get_link_index(outcome) {
            Ok(veth2_idx) => Step::Perform {
                action: Action::MoveLinkToNetns {
                    index: veth2_idx,
                    netns_name: namespaced_data.netns_name.to_owned(),
                },
                next: OuterInterfacesPhase::MovingVeth2,
            },
            Err(error) => Step::Finish(Err(error)),
        },
        OuterInterfacesPhase::MovingVeth2 => conclude_with(
            outcome,
            FirecrackerNetworkError::NetlinkOperationError,
        ),
    }
}

/// The commands that add the three rules of the outer namespace: the masquerade rule, the
/// rule for what comes in and the rule for what goes out.
pub open spec fn outer_rule_commands(network: &FirecrackerNetwork) -> Seq<NfObjectView> {
    let family = family_of_stack(network.ip_stack);
    seq![
        add_cmd(rule_object(family, NFT_POSTROUTING_CHAIN@, network_masq(network), None)),
        add_cmd(rule_object(family, NFT_FILTER_CHAIN@, network_ingress_forward(network), None)),
        add_cmd(rule_object(family, NFT_FILTER_CHAIN@, network_egress_forward(network), None)),
    ]
}

/// The commands that set up the packet filter of the outer namespace: what the ruleset
/// lacks of the table and the base chains, then the three rules.
pub open spec fn outer_commands(network: &FirecrackerNetwork, ruleset: Seq<NfObjectView>) -> Seq<
    NfObjectView,
> {
    missing_base_chains(family_of_stack(network.ip_stack), ruleset) + outer_rule_commands(network)
}

/// The batch that sets up the packet filter of the outer namespace, given its ruleset.
pub fn outer_batch(network: &FirecrackerNetwork, current_ruleset: &Nftables) -> (batch: Batch)
    ensures
        batch.deep_view() == outer_commands(network, current_ruleset.deep_view()),
{
    let namespaced_data = network.namespaced_data();
    let mut batch = Batch::new();
    let _ = add_base_chains_if_needed(network, current_ruleset, &mut batch);
    let ghost base = batch.deep_view();

    batch.add(
        rule(
            network.nf_family(),
            NFT_POSTROUTING_CHAIN,
            outer_masq_expr(network, &namespaced_data),
            None,
        ),
    );

    batch.add(
        rule(
            network.nf_family(),
            NFT_FILTER_CHAIN,
            outer_ingress_forward_expr(network, &namespaced_data),
            None,
        ),
    );

    batch.add(
        rule(
            network.nf_family(),
            NFT_FILTER_CHAIN,
            outer_egress_forward_expr(network, &namespaced_data),
            None,
        ),
    );

    assert(batch.deep_view() =~= base + outer_rule_commands(network));
    assert(base =~= missing_base_chains(
        family_of_stack(network.ip_stack),
        current_ruleset.deep_view(),
    ));
    batch
}

/// How far the setup of the packet filter of the outer namespace has come.
#[derive(Clone, Copy, Debug, PartialEq, Eq, Structural)]
pub enum OuterNfRulesPhase {
    /// Nothing has been asked for yet.
    Start,
    /// The ruleset is being read.
    ListingRuleset,
    /// The commands are being applied.
    AddingRules,
}

/// The next step of the setup of the packet filter of the outer namespace: the ruleset is
/// read, and the commands that follow from it are applied as a whole.
pub open spec fn outer_nf_rules_step(
    network: &FirecrackerNetwork,
    phase: OuterNfRulesPhase,
    outcome: OutcomeView,
) -> StepView<OuterNfRulesPhase> {
    match phase {
        OuterNfRulesPhase::Start => StepView::Perform {
            action: ActionView::GetCurrentRuleset { program: program_view(network.nft_path) },
            next: OuterNfRulesPhase::ListingRuleset,
        },
        OuterNfRulesPhase::ListingRuleset => match outcome {
            OutcomeView::Ruleset(ruleset) => StepView::Perform {
                action: ActionView::ApplyRuleset {
                    ruleset: outer_commands(network, ruleset),
                    program: program_view(network.nft_path),
                },
                next: OuterNfRulesPhase::AddingRules,
            },
            OutcomeView::Failed(error) => StepView::Finish(Err(error)),
            _ => StepView::Finish(Err(FirecrackerNetworkError::NftablesError)),
        },
        OuterNfRulesPhase::AddingRules => conclude(outcome, FirecrackerNetworkError::NftablesError),
    }
}

/// The next step of the setup of the packet filter of the outer namespace.
pub fn setup_outer_nf_rules(
    network: &FirecrackerNetwork,
    phase: OuterNfRulesPhase,
    outcome: &Outcome,
) -> (step: Step<OuterNfRulesPhase>)
    ensures
        step.deep_view() == outer_nf_rules_step(network, phase, outcome.deep_view()),
{
    match phase {
        OuterNfRulesPhase::Start => Step::Perform {
            action: Action::GetCurrentRuleset { program: copy_program(network.nft_program()) },
            next: OuterNfRulesPhase::ListingRuleset,
        },
        OuterNfRulesPhase::ListingRuleset => match outcome {
            Outcome::Ruleset(current_ruleset) => Step::Perform {
                action: Action::ApplyRuleset {
                    ruleset: outer_batch(network, current_ruleset).to_nftables(),
                    program: copy_program(network.nft_program()),
                },
                next: OuterNfRulesPhase::AddingRules,
            },
            Outcome::Failed(error) => Step::Finish(Err(*error)),
            _ => Step::Finish(Err(FirecrackerNetworkError::NftablesError)),
        },
        OuterNfRulesPhase::AddingRules => conclude_with(
            outcome,
            FirecrackerNetworkError::NftablesError,
        ),
    }
}

/// How far the setup of the route to the forwarded address has come.
#[derive(Clone, Copy, Debug, PartialEq, Eq, Structural)]
pub enum OuterForwardRoutePhase {
    /// Nothing has been asked for yet.
    Start,
    /// The route is being added.
    AddingRoute,
}

/// A forwarded address, if there is one, is of the address family of its gateway, the
/// inner end of the link pair.
pub open spec fn route_is_single_stack(network: &FirecrackerNetwork) -> bool {
    network.forwarded_guest_ip() matches Some(forwarded) ==> same_family(
        forwarded,
        network.veth2_ip().addr(),
    )
}

/// A consistent description forwards within one address family.
pub proof fn lemma_well_formed_is_single_stack(network: &FirecrackerNetwork)
    requires
        network.well_formed(),
    ensures
        route_is_single_stack(network),
{
}

/// The next step of the setup of the route to the forwarded address.
///
/// A network without a forwarded address needs no route. Else the route leads to that one
/// host, through the inner end of the link pair; where the two addresses are not of one
/// family, there is no such route and the setup fails.
pub open spec fn outer_forward_route_step(
    network: &FirecrackerNetwork,
    phase: OuterForwardRoutePhase,
    outcome: OutcomeView,
) -> StepView<OuterForwardRoutePhase> {
    match phase {
        OuterForwardRoutePhase::Start => match (
            network.forwarded_guest_ip(),
            network.veth2_ip().addr(),
        ) {
            (None, _) => StepView::Finish(Ok(())),
            (Some(IpAddr::V4(destination)), IpAddr::V4(gateway)) => StepView::Perform {
                action: ActionView::AddRouteV4 { destination, gateway },
                next: OuterForwardRoutePhase::AddingRoute,
            },
            (Some(IpAddr::V6(destination)), IpAddr::V6(gateway)) => StepView::Perform {
                action: ActionView::AddRouteV6 { destination, gateway },
                next: OuterForwardRoutePhase::AddingRoute,
            },
            _ => StepView::Finish(Err(FirecrackerNetworkError::ForbiddenDualStackInRoute)),
        },
        OuterForwardRoutePhase::AddingRoute => conclude(
            outcome,
            FirecrackerNetworkError::NetlinkOperationError,
        ),
    }
}

/// The next step of the setup of the route to the forwarded address.
pub fn setup_outer_forward_route(
    network: &FirecrackerNetwork,
    phase: OuterForwardRoutePhase,
    outcome: &Outcome,
) -> (step: Step<OuterForwardRoutePhase>)
    ensures
        step.deep_view() == outer_forward_route_step(network, phase, outcome.deep_view()),
{
    let namespaced_data = network.namespaced_data();
    match phase {
        OuterForwardRoutePhase::Start => {
            if let Some(forwarded_guest_ip) = namespaced_data.forwarded_guest_ip {
                match forwarded_guest_ip {
                    IpAddr::V4(v4) => match namespaced_data.veth2_ip.address() {
                        IpAddr::V4(gateway) => Step::Perform {
                            action: Action::AddRouteV4 { destination: *v4, gateway },
                            next: OuterForwardRoutePhase::AddingRoute,
                        },
                        IpAddr::V6(_) => Step::Finish(
                            Err(FirecrackerNetworkError::ForbiddenDualStackInRoute),
                        ),
                    },
                    IpAddr::V6(v6) => match namespaced_data.veth2_ip.address() {
                        IpAddr::V4(_) => Step::Finish(
                            Err(FirecrackerNetworkError::ForbiddenDualStackInRoute),
                        ),
                        IpAddr::V6(gateway) => Step::Perform {
                            action: Action::AddRouteV6 { destination: *v6, gateway },
                            next: OuterForwardRoutePhase::AddingRoute,
                        },
                    },
                }
            } else {
                Step::Finish(Ok(()))
            }
        },
        OuterForwardRoutePhase::AddingRoute => conclude_with(
            outcome,
            FirecrackerNetworkError::NetlinkOperationError,
        ),
    }
}

/// How far the addition of a network has come.
#[derive(Clone, Copy, Debug, PartialEq, Eq, Structural)]
pub enum AddPhase {
    /// Nothing has been asked for yet.
    Start,
    /// The link pair is being set up.
    OuterInterfaces(OuterInterfacesPhase),
    /// The work inside the namespace is being carried out.
    Inner,
    /// The packet filter of the outer namespace is being set up.
    OuterNfRules(OuterNfRulesPhase),
    /// The route to the forwarded address is being set up.
    OuterForwardRoute(OuterForwardRoutePhase),
}

/// The first step of the setup of the route to the forwarded address, as a step of the
/// addition.
pub open spec fn begin_outer_forward_route(network: &FirecrackerNetwork) -> StepView<AddPhase> {
    followed_by(
        outer_forward_route_step(network, OuterForwardRoutePhase::Start, OutcomeView::Done),
        |phase: OuterForwardRoutePhase| AddPhase::OuterForwardRoute(phase),
        StepView::Finish(Ok(())),
    )
}

/// The first step of the setup of the packet filter of the outer namespace, as a step of
/// the addition.
pub open spec fn begin_outer_nf_rules(network: &FirecrackerNetwork) -> StepView<AddPhase> {
    followed_by(
        outer_nf_rules_step(network, OuterNfRulesPhase::Start, OutcomeView::Done),
        |phase: OuterNfRulesPhase| AddPhase::OuterNfRules(phase),
        begin_outer_forward_route(network),
    )
}

/// The step that asks for the work inside the namespace.
pub open spec fn begin_inner(network: &FirecrackerNetwork) -> StepView<AddPhase> {
    StepView::Perform {
        action: ActionView::UseNetnsInThread { netns_name: network.netns_name() },
        next: AddPhase::Inner,
    }
}

/// The next step of the addition of a network.
///
/// A network whose forwarded address is not of the family of its gateway is refused at
/// once. Else, one after the other and each only after the one before it has succeeded:
/// the link pair is set up, the work inside the namespace is carried out, the packet filter
/// of the outer namespace is set up, and the route to the forwarded address is added. The
/// first failure ends the addition with its error.
pub open spec fn add_step(
    network: &FirecrackerNetwork,
    phase: AddPhase,
    outcome: OutcomeView,
) -> StepView<AddPhase> {
    match phase {
        AddPhase::Start => if route_is_single_stack(network) {
            followed_by(
                outer_interfaces_step(network, OuterInterfacesPhase::Start, outcome),
                |phase: OuterInterfacesPhase| AddPhase::OuterInterfaces(phase),
                begin_inner(network),
            )
        } else {
            StepView::Finish(Err(FirecrackerNetworkError::ForbiddenDualStackInRoute))
        },
        AddPhase::OuterInterfaces(phase) => followed_by(
            outer_interfaces_step(network, phase, outcome),
            |phase: OuterInterfacesPhase| AddPhase::OuterInterfaces(phase),
            begin_inner(network),
        ),
        AddPhase::Inner => match failure(outcome, FirecrackerNetworkError::NetnsError) {
            Some(error) => StepView::Finish(Err(error)),
            None => begin_outer_nf_rules(network),
        },
        AddPhase::OuterNfRules(phase) => followed_by(
            outer_nf_rules_step(network, phase, outcome),
            |phase: OuterNfRulesPhase| AddPhase::OuterNfRules(phase),
            begin_outer_forward_route(network),
        ),
        AddPhase::OuterForwardRoute(phase) => followed_by(
            outer_forward_route_step(network, phase, outcome),
            |phase: OuterForwardRoutePhase| AddPhase::OuterForwardRoute(phase),
            StepView::Finish(Ok(())),
        ),
    }
}

fn outer_forward_route_in_turn(
    network: &FirecrackerNetwork,
    phase: OuterForwardRoutePhase,
    outcome: &Outcome,
) -> (step: Step<AddPhase>)
    ensures
        step.deep_view() == followed_by(
            outer_forward_route_step(network, phase, outcome.deep_view()),
            |phase: OuterForwardRoutePhase| AddPhase::OuterForwardRoute(phase),
            StepView::Finish(Ok(())),
        ),
{
    match setup_outer_forward_route(network, phase, outcome) {
        Step::Perform { action, next } => Step::Perform {
            action,
            next: AddPhase::OuterForwardRoute(next),
        },
        Step::Finish(result) => Step::Finish(result),
    }
}

fn outer_nf_rules_in_turn(
    network: &FirecrackerNetwork,
    phase: OuterNfRulesPhase,
    outcome: &Outcome,
) -> (step: Step<AddPhase>)
    ensures
        step.deep_view() == followed_by(
            outer_nf_rules_step(network, phase, outcome.deep_view()),
            |phase: OuterNfRulesPhase| AddPhase::OuterNfRules(phase),
            begin_outer_forward_route(network),
        ),
{
    match setup_outer_nf_rules(network, phase, outcome) {
        Step::Perform { action, next } => Step::Perform {
            action,
            next: AddPhase::OuterNfRules(next),
        },
        Step::Finish(Err(error)) => Step::Finish(Err(error)),
        Step::Finish(Ok(_)) => outer_forward_route_in_turn(
            network,
            OuterForwardRoutePhase::Start,
            &Outcome::Done,
        ),
    }
}

fn outer_interfaces_in_turn(
    network: &FirecrackerNetwork,
    phase: OuterInterfacesPhase,
    outcome: &Outcome,
) -> (step: Step<AddPhase>)
    ensures
        step.deep_view() == followed_by(
            outer_interfaces_step(network, phase, outcome.deep_view()),
            |phase: OuterInterfacesPhase| AddPhase::OuterInterfaces(phase),
            begin_inner(network),
        ),
{
    match setup_outer_interfaces(network, phase, outcome) {
        Step::Perform { action, next } => Step::Perform {
            action,
            next: AddPhase::OuterInterfaces(next),
        },
        Step::Finish(Err(error)) => Step::Finish(Err(error)),
        Step::Finish(Ok(_)) => {
            let namespaced_data = network.namespaced_data();
            Step::Perform {
                action: Action::UseNetnsInThread {
                    netns_name: namespaced_data.netns_name.to_owned(),
                },
                next: AddPhase::Inner,
            }
        },
    }
}

/// Whether a forwarded address, if there is one, is of the address family of its gateway.
pub fn forwards_within_one_family(network: &FirecrackerNetwork) -> (single: bool)
    ensures
        single == route_is_single_stack(network),
{
    let namespaced_data = network.namespaced_data();
    match namespaced_data.forwarded_guest_ip {
        None => true,
        Some(forwarded) => of_same_family(*forwarded, namespaced_data.veth2_ip.address()),
    }
}

/// The next step of the addition of a network.
pub fn add(network: &FirecrackerNetwork, phase: AddPhase, outcome: &Outcome) -> (step: Step<
    AddPhase,
>)
    ensures
        step.deep_view() == add_step(network, phase, outcome.deep_view()),
{
    match phase {
        AddPhase::Start => {
            if !forwards_within_one_family(network) {
                return Step::Finish(Err(FirecrackerNetworkError::ForbiddenDualStackInRoute));
            }
            outer_interfaces_in_turn(network, OuterInterfacesPhase::Start, outcome)
        },
        AddPhase::OuterInterfaces(phase) => outer_interfaces_in_turn(network, phase, outcome),
        AddPhase::Inner => match failure_of(outcome, FirecrackerNetworkError::NetnsError) {
            Some(error) => Step::Finish(Err(error)),
            None => outer_nf_rules_in_turn(network, OuterNfRulesPhase::Start, &Outcome::Done),
        },
        AddPhase::OuterNfRules(phase) => outer_nf_rules_in_turn(network, phase, outcome),
        AddPhase::OuterForwardRoute(phase) => outer_forward_route_in_turn(
            network,
            phase,
            outcome,
        ),
    }
}

/// The table of this library is there for the command at `at`: the ruleset lists it, or an
/// earlier command adds it.
pub open spec fn table_is_ready(
    ruleset: Seq<NfObjectView>,
    commands: Seq<NfObjectView>,
    at: int,
    family: NfFamily,
) -> bool {
    has_table(ruleset, family) || exists|j: int|
        0 <= j < at && #[trigger] commands[j] == add_cmd(base_table(family))
}

/// A chain of this name is there for the command at `at`: the ruleset lists it, or an
/// earlier command adds it.
pub open spec fn chain_is_ready(
    ruleset: Seq<NfObjectView>,
    commands: Seq<NfObjectView>,
    at: int,
    name: Seq<char>,
) -> bool {
    has_chain(ruleset, name) || exists|j: int|
        0 <= j < at && (#[trigger] commands[j] matches NfObjectView::CmdObject(
            NfCmdView::Add(NfListObjectView::Chain(chain)),
        ) && chain.table == NFT_TABLE@ && chain.name == name)
}

/// Every command finds what it builds on: a chain that is added finds its table, and a rule
/// that is added finds its chain, in the ruleset or among the commands before it.
pub open spec fn builds_on_what_is_there(
    ruleset: Seq<NfObjectView>,
    commands: Seq<NfObjectView>,
) -> bool {
    forall|i: int|
        0 <= i < commands.len() ==> match #[trigger] commands[i] {
            NfObjectView::CmdObject(NfCmdView::Add(NfListObjectView::Chain(chain))) => chain.table
                == NFT_TABLE@ && table_is_ready(ruleset, commands, i, chain.family),
            NfObjectView::CmdObject(NfCmdView::Add(NfListObjectView::Rule(rule))) => rule.table
                == NFT_TABLE@ && chain_is_ready(ruleset, commands, i, rule.chain),
            _ => true,
        }
}

/// The commands for the outer namespace fit the ruleset that they were made for: each
/// chain finds its table and each rule finds its chain, listed or added before it.
pub proof fn lemma_outer_commands_fit(network: &FirecrackerNetwork, ruleset: Seq<NfObjectView>)
    ensures
        builds_on_what_is_there(ruleset, outer_commands(network, ruleset)),
{
    let family = family_of_stack(network.ip_stack);
    let missing = missing_base_chains(family, ruleset);
    let rules = outer_rule_commands(network);
    let commands = outer_commands(network, ruleset);
    let n = missing.len() as int;
    let tables: int = if has_table(ruleset, family) {
        0
    } else {
        1
    };
    let postroutings: int = if has_chain(ruleset, NFT_POSTROUTING_CHAIN@) {
        0
    } else {
        1
    };
    assert(commands.len() == n + 3);
    if !has_table(ruleset, family) {
        assert(commands[0] == add_cmd(base_table(family)));
    }
    if !has_chain(ruleset, NFT_POSTROUTING_CHAIN@) {
        assert(commands[tables] == add_cmd(postrouting_chain(family)));
    }
    if !has_chain(ruleset, NFT_FILTER_CHAIN@) {
        assert(commands[tables + postroutings] == add_cmd(filter_chain(family)));
    }
    assert(commands[n] == rules[0]);
    assert(commands[n + 1] == rules[1]);
    assert(commands[n + 2] == rules[2]);
    assert forall|i: int| 0 <= i < commands.len() implies match #[trigger] commands[i] {
        NfObjectView::CmdObject(NfCmdView::Add(NfListObjectView::Chain(chain))) => chain.table
            == NFT_TABLE@ && table_is_ready(ruleset, commands, i, chain.family),
        NfObjectView::CmdObject(NfCmdView::Add(NfListObjectView::Rule(rule))) => rule.table
            == NFT_TABLE@ && chain_is_ready(ruleset, commands, i, rule.chain),
        _ => true,
    } by {
        if i < n {
            assert(commands[i] == missing[i]);
            if i >= tables {
                assert(table_is_ready(ruleset, commands, i, family));
            }
        } else {
            assert(commands[i] == rules[i - n]);
            assert(chain_is_ready(ruleset, commands, i, NFT_POSTROUTING_CHAIN@));
            assert(chain_is_ready(ruleset, commands, i, NFT_FILTER_CHAIN@));
        }
    }
}

/// The commands for the inner namespace fit an empty ruleset: the table comes first, and
/// each rule comes after its chain.
pub proof fn lemma_inner_commands_fit(network: &FirecrackerNetwork)
    ensures
        builds_on_what_is_there(Seq::empty(), inner_commands(network)),
{
    let family = family_of_stack(network.ip_stack);
    let commands = inner_commands(network);
    let ruleset = Seq::<NfObjectView>::empty();
    assert(commands[0] == add_cmd(base_table(family)));
    assert(commands[1] == add_cmd(postrouting_chain(family)));
    if network.forwarded_guest_ip() is Some {
        assert(commands[2] == add_cmd(prerouting_chain(family)));
    }
    assert forall|i: int| 0 <= i < commands.len() implies match #[trigger] commands[i] {
        NfObjectView::CmdObject(NfCmdView::Add(NfListObjectView::Chain(chain))) => chain.table
            == NFT_TABLE@ && table_is_ready(ruleset, commands, i, chain.family),
        NfObjectView::CmdObject(NfCmdView::Add(NfListObjectView::Rule(rule))) => rule.table
            == NFT_TABLE@ && chain_is_ready(ruleset, commands, i, rule.chain),
        _ => true,
    } by {
        if i >= 1 {
            assert(table_is_ready(ruleset, commands, i, family));
        }
        if i >= 2 {
            assert(chain_is_ready(ruleset, commands, i, NFT_POSTROUTING_CHAIN@));
        }
        if i >= 3 && network.forwarded_guest_ip() is Some {
            assert(chain_is_ready(ruleset, commands, i, NFT_PREROUTING_CHAIN@));
        }
    }
}

} // verus!
