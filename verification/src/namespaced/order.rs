//! The order in which an operation asks for its actions, and how it ends.

use crate::addr::IpAddr;
use crate::driver::{program_view, ActionView, OutcomeView, StepView};
use crate::namespaced::add::{
    default_route, inner_commands, inner_step, outer_commands, route_is_single_stack, AddPhase,
    InnerInterfacesPhase, InnerNfRulesPhase, InnerPhase, OuterForwardRoutePhase,
    OuterInterfacesPhase, OuterNfRulesPhase,
};
use crate::namespaced::check::{ruleset_complete, CheckPhase};
use crate::namespaced::delete::{delete_batch, DeletePhase};
use crate::namespaced::{run_step, Phase};
use crate::network::{
    FirecrackerNetwork, FirecrackerNetworkError, FirecrackerNetworkObjectType,
    FirecrackerNetworkOperation,
};
use crate::nft::NfObjectView;
use vstd::prelude::*;

verus! {

/// What has become of an operation: the actions that it has asked for, in their order, and
/// its result once it has ended.
pub struct Run {
    pub actions: Seq<ActionView>,
    pub result: Option<Result<(), FirecrackerNetworkError>>,
}

/// The rest of a run that stands at `step`, with `outcomes` as the outcomes of the actions
/// that it asks for from there on, one for each action and in their order.
pub open spec fn run_from<P>(
    next_step: spec_fn(P, OutcomeView) -> StepView<P>,
    step: StepView<P>,
    outcomes: Seq<OutcomeView>,
) -> Run
    decreases outcomes.len(),
{
    match step {
        StepView::Finish(result) => Run { actions: Seq::empty(), result: Some(result) },
        StepView::Perform { action, next } => if outcomes.len() == 0 {
            Run { actions: seq![action], result: None }
        } else {
            let rest = run_from(next_step, next_step(next, outcomes[0]), outcomes.skip(1));
            Run { actions: seq![action] + rest.actions, result: rest.result }
        },
    }
}

/// The run of an operation on a network from its start.
pub open spec fn run_of(
    operation: FirecrackerNetworkOperation,
    network: &FirecrackerNetwork,
    outcomes: Seq<OutcomeView>,
) -> Run {
    run_from(
        |phase: Phase, outcome: OutcomeView| run_step(operation, network, phase, outcome),
        run_step(operation, network, Phase::Start, OutcomeView::Done),
        outcomes,
    )
}

/// The run of the work inside the namespace from its start.
pub open spec fn inner_run_of(network: &FirecrackerNetwork, outcomes: Seq<OutcomeView>) -> Run {
    run_from(
        |phase: InnerPhase, outcome: OutcomeView| inner_step(network, phase, outcome),
        inner_step(network, InnerPhase::Start, OutcomeView::Done),
        outcomes,
    )
}

/// An operation in this phase awaits the outcome of an action.
pub open spec fn awaits_outcome(phase: Phase) -> bool {
    match phase {
        Phase::Start => false,
        Phase::Add(AddPhase::Start) => false,
        Phase::Add(AddPhase::OuterInterfaces(OuterInterfacesPhase::Start)) => false,
        Phase::Add(AddPhase::OuterNfRules(OuterNfRulesPhase::Start)) => false,
        Phase::Add(AddPhase::OuterForwardRoute(OuterForwardRoutePhase::Start)) => false,
        Phase::Check(CheckPhase::Start) => false,
        Phase::Delete(DeletePhase::Start) => false,
        _ => true,
    }
}

/// The work inside the namespace in this phase awaits the outcome of an action.
pub open spec fn inner_awaits_outcome(phase: InnerPhase) -> bool {
    match phase {
        InnerPhase::Start => false,
        InnerPhase::Interfaces(InnerInterfacesPhase::Start) => false,
        InnerPhase::NfRules(InnerNfRulesPhase::Start) => false,
        _ => true,
    }
}

/// No error is swallowed: an operation that awaits the outcome of an action ends with the
/// error of that action where the action failed.
pub proof fn lemma_failure_ends_operation(
    operation: FirecrackerNetworkOperation,
    network: &FirecrackerNetwork,
    phase: Phase,
    error: FirecrackerNetworkError,
)
    requires
        awaits_outcome(phase),
    ensures
        run_step(operation, network, phase, OutcomeView::Failed(error)) == StepView::<
            Phase,
        >::Finish(Err(error)),
{
}

/// No error is swallowed inside the namespace either.
pub proof fn lemma_failure_ends_inner_work(
    network: &FirecrackerNetwork,
    phase: InnerPhase,
    error: FirecrackerNetworkError,
)
    requires
        inner_awaits_outcome(phase),
    ensures
        inner_step(network, phase, OutcomeView::Failed(error)) == StepView::<InnerPhase>::Finish(
            Err(error),
        ),
{
}

/// A network whose forwarded address is not of the address family of its gateway is not
/// added: the addition ends with the error for a route across address families before it
/// has asked for any action, so that neither a link nor the packet filter is touched.
pub proof fn lemma_add_refuses_dual_stack_route(
    network: &FirecrackerNetwork,
    outcomes: Seq<OutcomeView>,
)
    requires
        !route_is_single_stack(network),
    ensures
        run_of(FirecrackerNetworkOperation::Add, network, outcomes) == (Run {
            actions: Seq::empty(),
            result: Some(Err(FirecrackerNetworkError::ForbiddenDualStackInRoute)),
        }),
{
}

/// The action that adds the route to the forwarded address of a network, if it has one.
pub open spec fn forward_route_actions(network: &FirecrackerNetwork) -> Seq<ActionView> {
    match (network.forwarded_guest_ip(), network.veth2_ip().addr()) {
        (Some(IpAddr::V4(destination)), IpAddr::V4(gateway)) => seq![
            ActionView::AddRouteV4 { destination, gateway },
        ],
        (Some(IpAddr::V6(destination)), IpAddr::V6(gateway)) => seq![
            ActionView::AddRouteV6 { destination, gateway },
        ],
        _ => Seq::empty(),
    }
}

/// The actions of an addition in which every action succeeds, where the two ends of the
/// link pair are reported under the indices given and the ruleset of the outer namespace is
/// `ruleset`.
pub open spec fn add_actions(
    network: &FirecrackerNetwork,
    veth1_index: u32,
    veth2_index: u32,
    ruleset: Seq<NfObjectView>,
) -> Seq<ActionView> {
    seq![
        ActionView::AddVeth {
            veth1_name: network.veth1_name(),
            veth2_name: network.veth2_name(),
        },
        ActionView::GetLinkIndex { link: network.veth1_name() },
        ActionView::AddAddress {
            index: veth1_index,
            address: network.veth1_ip().addr(),
            prefix_len: network.veth1_ip().len(),
        },
        ActionView::SetLinkUp { index: veth1_index },
        ActionView::GetLinkIndex { link: network.veth2_name() },
        ActionView::MoveLinkToNetns { index: veth2_index, netns_name: network.netns_name() },
        ActionView::UseNetnsInThread { netns_name: network.netns_name() },
        ActionView::GetCurrentRuleset { program: program_view(network.nft_path) },
        ActionView::ApplyRuleset {
            ruleset: outer_commands(network, ruleset),
            program: program_view(network.nft_path),
        },
    ] + forward_route_actions(network)
}

/// The outcomes of the actions of an addition in which every action succeeds.
pub open spec fn add_outcomes(
    network: &FirecrackerNetwork,
    veth1_index: u32,
    veth2_index: u32,
    ruleset: Seq<NfObjectView>,
) -> Seq<OutcomeView> {
    seq![
        OutcomeView::Done,
        OutcomeView::LinkIndex(veth1_index),
        OutcomeView::Done,
        OutcomeView::Done,
        OutcomeView::LinkIndex(veth2_index),
        OutcomeView::Done,
        OutcomeView::Done,
        OutcomeView::Ruleset(ruleset),
        OutcomeView::Done,
    ] + Seq::new(forward_route_actions(network).len(), |i: int| OutcomeView::Done)
}

/// A run goes on by one action: the run that stands at an action with at least one outcome
/// to come is that action, followed by the run from the step that its outcome leads to.
pub proof fn lemma_run_goes_on<P>(
    next_step: spec_fn(P, OutcomeView) -> StepView<P>,
    action: ActionView,
    next: P,
    outcomes: Seq<OutcomeView>,
)
    requires
        outcomes.len() > 0,
    ensures
        run_from(next_step, StepView::Perform { action, next }, outcomes) == ({
            let rest = run_from(next_step, next_step(next, outcomes[0]), outcomes.skip(1));
            Run { actions: seq![action] + rest.actions, result: rest.result }
        }),
{
}

/// The order of an addition. Where every action succeeds, the addition asks for these
/// actions, one after the other, and then ends well: the link pair is created; its outer
/// end is looked up, gets its address and is brought up; its inner end is looked up and
/// moved into the namespace; the work inside the namespace is carried out; the ruleset of
/// the outer namespace is read, and the commands that follow from it are applied; last, the
/// route to the forwarded address is added, if there is such an address.
pub proof fn lemma_add_order(
    network: &FirecrackerNetwork,
    veth1_index: u32,
    veth2_index: u32,
    ruleset: Seq<NfObjectView>,
)
    requires
        route_is_single_stack(network),
    ensures
        run_of(
            FirecrackerNetworkOperation::Add,
            network,
            add_outcomes(network, veth1_index, veth2_index, ruleset),
        ) == (Run {
            actions: add_actions(network, veth1_index, veth2_index, ruleset),
            result: Some(Ok(())),
        }),
{
    let operation = FirecrackerNetworkOperation::Add;
    let next_step = |phase: Phase, outcome: OutcomeView|
        run_step(operation, network, phase, outcome);
    let outcomes = add_outcomes(network, veth1_index, veth2_index, ruleset);
    let actions = add_actions(network, veth1_index, veth2_index, ruleset);
    let route = forward_route_actions(network);
    assert(outcomes.len() == 9 + route.len());
    assert(route.len() <= 1);

    let step0 = run_step(operation, network, Phase::Start, OutcomeView::Done);
    let rest0 = outcomes;
    let phase0 = Phase::Add(AddPhase::OuterInterfaces(OuterInterfacesPhase::AddingVeth));
    assert(step0 == StepView::Perform { action: actions[0], next: phase0 });
    lemma_run_goes_on(next_step, actions[0], phase0, rest0);

    let step1 = next_step(phase0, rest0[0]);
    let rest1 = rest0.skip(1);
    let phase1 = Phase::Add(AddPhase::OuterInterfaces(OuterInterfacesPhase::FindingVeth1));
    assert(step1 == StepView::Perform { action: actions[1], next: phase1 });
    lemma_run_goes_on(next_step, actions[1], phase1, rest1);

    let step2 = next_step(phase1, rest1[0]);
    let rest2 = rest1.skip(1);
    let phase2 = Phase::Add(
        AddPhase::OuterInterfaces(OuterInterfacesPhase::AddressingVeth1(veth1_index)),
    );
    assert(step2 == StepView::Perform { action: actions[2], next: phase2 });
    lemma_run_goes_on(next_step, actions[2], phase2, rest2);

    let step3 = next_step(phase2, rest2[0]);
    let rest3 = rest2.skip(1);
    let phase3 = Phase::Add(AddPhase::OuterInterfaces(OuterInterfacesPhase::RaisingVeth1));
    assert(step3 == StepView::Perform { action: actions[3], next: phase3 });
    lemma_run_goes_on(next_step, actions[3], phase3, rest3);

    let step4 = next_step(phase3, rest3[0]);
    let rest4 = rest3.skip(1);
    let phase4 = Phase::Add(AddPhase::OuterInterfaces(OuterInterfacesPhase::FindingVeth2));
    assert(step4 == StepView::Perform { action: actions[4], next: phase4 });
    lemma_run_goes_on(next_step, actions[4], phase4, rest4);

    let step5 = next_step(phase4, rest4[0]);
    let rest5 = rest4.skip(1);
    let phase5 = Phase::Add(AddPhase::OuterInterfaces(OuterInterfacesPhase::MovingVeth2));
    assert(step5 == StepView::Perform { action: actions[5], next: phase5 });
    lemma_run_goes_on(next_step, actions[5], phase5, rest5);

    let step6 = next_step(phase5, rest5[0]);
    let rest6 = rest5.skip(1);
    let phase6 = Phase::Add(AddPhase::Inner);
    assert(step6 == StepView::Perform { action: actions[6], next: phase6 });
    lemma_run_goes_on(next_step, actions[6], phase6, rest6);

    let step7 = next_step(phase6, rest6[0]);
    let rest7 = rest6.skip(1);
    let phase7 = Phase::Add(AddPhase::OuterNfRules(OuterNfRulesPhase::ListingRuleset));
    assert(step7 == StepView::Perform { action: actions[7], next: phase7 });
    lemma_run_goes_on(next_step, actions[7], phase7, rest7);

    let step8 = next_step(phase7, rest7[0]);
    let rest8 = rest7.skip(1);
    let phase8 = Phase::Add(AddPhase::OuterNfRules(OuterNfRulesPhase::AddingRules));
    assert(rest7[0] == OutcomeView::Ruleset(ruleset));
    assert(step8 == StepView::Perform { action: actions[8], next: phase8 });
    lemma_run_goes_on(next_step, actions[8], phase8, rest8);

    let step9 = next_step(phase8, rest8[0]);
    let rest9 = rest8.skip(1);
    assert(rest8[0] == OutcomeView::Done);
    let last = run_from(next_step, step9, rest9);
    if route.len() == 0 {
        assert(step9 == StepView::<Phase>::Finish(Ok(())));
        assert(last == Run { actions: Seq::empty(), result: Some(Ok(())) });
    } else {
        let phase9 = Phase::Add(AddPhase::OuterForwardRoute(OuterForwardRoutePhase::AddingRoute));
        assert(step9 == StepView::Perform { action: route[0], next: phase9 });
        assert(rest9.len() == 1);
        lemma_run_goes_on(next_step, route[0], phase9, rest9);
        assert(rest9[0] == OutcomeView::Done);
        assert(next_step(phase9, rest9[0]) == StepView::<Phase>::Finish(Ok(())));
        assert(last.actions =~= route);
        assert(last.result == Some(Ok::<(), FirecrackerNetworkError>(())));
    }
    assert(last.actions =~= route);
    let run8 = run_from(next_step, step8, rest8);
    assert(run8.actions =~= seq![actions[8]] + route);
    let run7 = run_from(next_step, step7, rest7);
    assert(run7.actions =~= seq![actions[7], actions[8]] + route);
    let run6 = run_from(next_step, step6, rest6);
    assert(run6.actions =~= seq![actions[6], actions[7], actions[8]] + route);
    let run5 = run_from(next_step, step5, rest5);
    assert(run5.actions =~= seq![actions[5], actions[6], actions[7], actions[8]] + route);
    let run4 = run_from(next_step, step4, rest4);
    assert(run4.actions =~= seq![
        actions[4],
        actions[5],
        actions[6],
        actions[7],
        actions[8],
    ] + route);
    let run3 = run_from(next_step, step3, rest3);
    assert(run3.actions =~= seq![
        actions[3],
        actions[4],
        actions[5],
        actions[6],
        actions[7],
        actions[8],
    ] + route);
    let run2 = run_from(next_step, step2, rest2);
    assert(run2.actions =~= seq![
        actions[2],
        actions[3],
        actions[4],
        actions[5],
        actions[6],
        actions[7],
        actions[8],
    ] + route);
    let run1 = run_from(next_step, step1, rest1);
    assert(run1.actions =~= seq![
        actions[1],
        actions[2],
        actions[3],
        actions[4],
        actions[5],
        actions[6],
        actions[7],
        actions[8],
    ] + route);
    let run0 = run_from(next_step, step0, rest0);
    assert(run0.actions =~= actions);
    assert(run0.result == Some(Ok::<(), FirecrackerNetworkError>(())));
}

/// The actions of the work inside the namespace in which every action succeeds, where the
/// inner end of the link pair and the TAP device are reported under the indices given.
pub open spec fn inner_actions(
    network: &FirecrackerNetwork,
    veth2_index: u32,
    tap_index: u32,
) -> Seq<ActionView> {
    seq![
        ActionView::CreateTap { tap_name: network.tap_name@ },
        ActionView::ConnectNetlink,
        ActionView::GetLinkIndex { link: network.veth2_name() },
        ActionView::AddAddress {
            index: veth2_index,
            address: network.veth2_ip().addr(),
            prefix_len: network.veth2_ip().len(),
        },
        ActionView::SetLinkUp { index: veth2_index },
        default_route(network.veth1_ip().addr()),
        ActionView::GetLinkIndex { link: network.tap_name@ },
        ActionView::AddAddress {
            index: tap_index,
            address: network.tap_ip.addr(),
            prefix_len: network.tap_ip.len(),
        },
        ActionView::SetLinkUp { index: tap_index },
        ActionView::ApplyRuleset {
            ruleset: inner_commands(network),
            program: program_view(network.nft_path),
        },
    ]
}

/// The outcomes of the actions of the work inside the namespace in which every action
/// succeeds.
pub open spec fn inner_outcomes(veth2_index: u32, tap_index: u32) -> Seq<OutcomeView> {
    seq![
        OutcomeView::Done,
        OutcomeView::Done,
        OutcomeView::LinkIndex(veth2_index),
        OutcomeView::Done,
        OutcomeView::Done,
        OutcomeView::Done,
        OutcomeView::LinkIndex(tap_index),
        OutcomeView::Done,
        OutcomeView::Done,
        OutcomeView::Done,
    ]
}

/// The order of the work inside the namespace. Where every action succeeds, it asks for
/// these actions, one after the other, and then ends well: the TAP device is created and a
/// connection is opened; the inner end of the link pair is looked up, gets its address and
/// is brought up; the default route is added; the TAP device is looked up, gets its address
/// and is brought up; and only then the commands for the packet filter are applied.
pub proof fn lemma_inner_order(network: &FirecrackerNetwork, veth2_index: u32, tap_index: u32)
    ensures
        inner_run_of(network, inner_outcomes(veth2_index, tap_index)) == (Run {
            actions: inner_actions(network, veth2_index, tap_index),
            result: Some(Ok(())),
        }),
{
    let next_step = |phase: InnerPhase, outcome: OutcomeView| inner_step(network, phase, outcome);
    let actions = inner_actions(network, veth2_index, tap_index);
    let rest0 = inner_outcomes(veth2_index, tap_index);

    let step0 = inner_step(network, InnerPhase::Start, OutcomeView::Done);
    let phase0 = InnerPhase::Interfaces(InnerInterfacesPhase::CreatingTap);
    assert(step0 == StepView::Perform { action: actions[0], next: phase0 });
    lemma_run_goes_on(next_step, actions[0], phase0, rest0);

    let step1 = next_step(phase0, rest0[0]);
    let rest1 = rest0.skip(1);
    let phase1 = InnerPhase::Interfaces(InnerInterfacesPhase::Connecting);
    assert(step1 == StepView::Perform { action: actions[1], next: phase1 });
    lemma_run_goes_on(next_step, actions[1], phase1, rest1);

    let step2 = next_step(phase1, rest1[0]);
    let rest2 = rest1.skip(1);
    let phase2 = InnerPhase::Interfaces(InnerInterfacesPhase::FindingVeth2);
    assert(step2 == StepView::Perform { action: actions[2], next: phase2 });
    lemma_run_goes_on(next_step, actions[2], phase2, rest2);

    let step3 = next_step(phase2, rest2[0]);
    let rest3 = rest2.skip(1);
    let phase3 = InnerPhase::Interfaces(InnerInterfacesPhase::AddressingVeth2(veth2_index));
    assert(step3 == StepView::Perform { action: actions[3], next: phase3 });
    lemma_run_goes_on(next_step, actions[3], phase3, rest3);

    let step4 = next_step(phase3, rest3[0]);
    let rest4 = rest3.skip(1);
    let phase4 = InnerPhase::Interfaces(InnerInterfacesPhase::RaisingVeth2);
    assert(step4 == StepView::Perform { action: actions[4], next: phase4 });
    lemma_run_goes_on(next_step, actions[4], phase4, rest4);

    let step5 = next_step(phase4, rest4[0]);
    let rest5 = rest4.skip(1);
    let phase5 = InnerPhase::Interfaces(InnerInterfacesPhase::AddingDefaultRoute);
    assert(step5 == StepView::Perform { action: actions[5], next: phase5 });
    lemma_run_goes_on(next_step, actions[5], phase5, rest5);

    let step6 = next_step(phase5, rest5[0]);
    let rest6 = rest5.skip(1);
    let phase6 = InnerPhase::Interfaces(InnerInterfacesPhase::FindingTap);
    assert(step6 == StepView::Perform { action: actions[6], next: phase6 });
    lemma_run_goes_on(next_step, actions[6], phase6, rest6);

    let step7 = next_step(phase6, rest6[0]);
    let rest7 = rest6.skip(1);
    let phase7 = InnerPhase::Interfaces(InnerInterfacesPhase::AddressingTap(tap_index));
    assert(step7 == StepView::Perform { action: actions[7], next: phase7 });
    lemma_run_goes_on(next_step, actions[7], phase7, rest7);

    let step8 = next_step(phase7, rest7[0]);
    let rest8 = rest7.skip(1);
    let phase8 = InnerPhase::Interfaces(InnerInterfacesPhase::RaisingTap);
    assert(step8 == StepView::Perform { action: actions[8], next: phase8 });
    lemma_run_goes_on(next_step, actions[8], phase8, rest8);

    let step9 = next_step(phase8, rest8[0]);
    let rest9 = rest8.skip(1);
    let phase9 = InnerPhase::NfRules(InnerNfRulesPhase::AddingRules);
    assert(step9 == StepView::Perform { action: actions[9], next: phase9 });
    lemma_run_goes_on(next_step, actions[9], phase9, rest9);

    let step10 = next_step(phase9, rest9[0]);
    assert(step10 == StepView::<InnerPhase>::Finish(Ok(())));
    let run9 = run_from(next_step, step9, rest9);
    assert(run9.actions =~= seq![actions[9]]);
    let run8 = run_from(next_step, step8, rest8);
    assert(run8.actions =~= seq![actions[8], actions[9]]);
    let run7 = run_from(next_step, step7, rest7);
    assert(run7.actions =~= seq![actions[7], actions[8], actions[9]]);
    let run6 = run_from(next_step, step6, rest6);
    assert(run6.actions =~= seq![actions[6], actions[7], actions[8], actions[9]]);
    let run5 = run_from(next_step, step5, rest5);
    assert(run5.actions =~= seq![actions[5], actions[6], actions[7], actions[8], actions[9]]);
    let run4 = run_from(next_step, step4, rest4);
    assert(run4.actions =~= seq![
        actions[4],
        actions[5],
        actions[6],
        actions[7],
        actions[8],
        actions[9],
    ]);
    let run3 = run_from(next_step, step3, rest3);
    assert(run3.actions =~= seq![
        actions[3],
        actions[4],
        actions[5],
        actions[6],
        actions[7],
        actions[8],
        actions[9],
    ]);
    let run2 = run_from(next_step, step2, rest2);
    assert(run2.actions =~= seq![
        actions[2],
        actions[3],
        actions[4],
        actions[5],
        actions[6],
        actions[7],
        actions[8],
        actions[9],
    ]);
    let run1 = run_from(next_step, step1, rest1);
    assert(run1.actions =~= seq![
        actions[1],
        actions[2],
        actions[3],
        actions[4],
        actions[5],
        actions[6],
        actions[7],
        actions[8],
        actions[9],
    ]);
    let run0 = run_from(next_step, step0, rest0);
    assert(run0.actions =~= actions);
}

/// The order of a deletion. The namespace is removed and the ruleset of the outer
/// namespace is read. Where the ruleset lacks one of the three rules, the deletion ends
/// there with the first that it lacks as its error, and has changed nothing in the packet
/// filter. Else the commands that delete the three rules are applied, and the deletion
/// ends well.
pub proof fn lemma_delete_order(network: &FirecrackerNetwork, ruleset: Seq<NfObjectView>)
    ensures
        match delete_batch(network, ruleset) {
            Err(error) => run_of(
                FirecrackerNetworkOperation::Delete,
                network,
                seq![OutcomeView::Done, OutcomeView::Ruleset(ruleset)],
            ) == (Run {
                actions: seq![
                    ActionView::RemoveNetns { netns_name: network.netns_name() },
                    ActionView::GetCurrentRuleset { program: program_view(network.nft_path) },
                ],
                result: Some(Err(error)),
            }),
            Ok(commands) => run_of(
                FirecrackerNetworkOperation::Delete,
                network,
                seq![OutcomeView::Done, OutcomeView::Ruleset(ruleset), OutcomeView::Done],
            ) == (Run {
                actions: seq![
                    ActionView::RemoveNetns { netns_name: network.netns_name() },
                    ActionView::GetCurrentRuleset { program: program_view(network.nft_path) },
                    ActionView::ApplyRuleset {
                        ruleset: commands,
                        program: program_view(network.nft_path),
                    },
                ],
                result: Some(Ok(())),
            }),
        },
{
    let operation = FirecrackerNetworkOperation::Delete;
    let next_step = |phase: Phase, outcome: OutcomeView|
        run_step(operation, network, phase, outcome);
    let remove = ActionView::RemoveNetns { netns_name: network.netns_name() };
    let list_ruleset = ActionView::GetCurrentRuleset { program: program_view(network.nft_path) };
    let phase0 = Phase::Delete(DeletePhase::RemovingNetns);
    let phase1 = Phase::Delete(DeletePhase::ListingRuleset);
    let step0 = run_step(operation, network, Phase::Start, OutcomeView::Done);
    assert(step0 == StepView::Perform { action: remove, next: phase0 });
    match delete_batch(network, ruleset) {
        Err(error) => {
            let rest0 = seq![OutcomeView::Done, OutcomeView::Ruleset(ruleset)];
            lemma_run_goes_on(next_step, remove, phase0, rest0);
            let step1 = next_step(phase0, rest0[0]);
            let rest1 = rest0.skip(1);
            assert(step1 == StepView::Perform { action: list_ruleset, next: phase1 });
            lemma_run_goes_on(next_step, list_ruleset, phase1, rest1);
            let step2 = next_step(phase1, rest1[0]);
            assert(step2 == StepView::<Phase>::Finish(Err(error)));
            let run1 = run_from(next_step, step1, rest1);
            assert(run1.actions =~= seq![list_ruleset]);
            let run0 = run_from(next_step, step0, rest0);
            assert(run0.actions =~= seq![remove, list_ruleset]);
        },
        Ok(commands) => {
            let apply = ActionView::ApplyRuleset {
                ruleset: commands,
                program: program_view(network.nft_path),
            };
            let phase2 = Phase::Delete(DeletePhase::DeletingRules);
            let rest0 = seq![OutcomeView::Done, OutcomeView::Ruleset(ruleset), OutcomeView::Done];
            lemma_run_goes_on(next_step, remove, phase0, rest0);
            let step1 = next_step(phase0, rest0[0]);
            let rest1 = rest0.skip(1);
            assert(step1 == StepView::Perform { action: list_ruleset, next: phase1 });
            lemma_run_goes_on(next_step, list_ruleset, phase1, rest1);
            let step2 = next_step(phase1, rest1[0]);
            let rest2 = rest1.skip(1);
            assert(step2 == StepView::Perform { action: apply, next: phase2 });
            lemma_run_goes_on(next_step, apply, phase2, rest2);
            let step3 = next_step(phase2, rest2[0]);
            assert(step3 == StepView::<Phase>::Finish(Ok(())));
            let run2 = run_from(next_step, step2, rest2);
            assert(run2.actions =~= seq![apply]);
            let run1 = run_from(next_step, step1, rest1);
            assert(run1.actions =~= seq![list_ruleset, apply]);
            let run0 = run_from(next_step, step0, rest0);
            assert(run0.actions =~= seq![remove, list_ruleset, apply]);
        },
    }
}

/// The action reads and changes nothing.
pub open spec fn reads_only(action: ActionView) -> bool {
    action is OpenNetns || action is GetCurrentRuleset
}

/// A check changes nothing: whatever the outcomes of its actions, it asks for no action
/// but to open the namespace and to read the ruleset.
pub proof fn lemma_check_reads_only(network: &FirecrackerNetwork, outcomes: Seq<OutcomeView>)
    ensures
        forall|i: int|
            0 <= i < run_of(FirecrackerNetworkOperation::Check, network, outcomes).actions.len()
                ==> reads_only(
                #[trigger] run_of(FirecrackerNetworkOperation::Check, network, outcomes).actions[i],
            ),
{
    let operation = FirecrackerNetworkOperation::Check;
    let next_step = |phase: Phase, outcome: OutcomeView|
        run_step(operation, network, phase, outcome);
    let open_netns = ActionView::OpenNetns { netns_name: network.netns_name() };
    let list_ruleset = ActionView::GetCurrentRuleset { program: program_view(network.nft_path) };
    let phase0 = Phase::Check(CheckPhase::OpeningNetns);
    let phase1 = Phase::Check(CheckPhase::ListingRuleset);
    let step0 = run_step(operation, network, Phase::Start, OutcomeView::Done);
    assert(step0 == StepView::Perform { action: open_netns, next: phase0 });
    let run0 = run_from(next_step, step0, outcomes);
    if outcomes.len() == 0 {
        assert(run0.actions =~= seq![open_netns]);
    } else {
        lemma_run_goes_on(next_step, open_netns, phase0, outcomes);
        let step1 = next_step(phase0, outcomes[0]);
        let rest1 = outcomes.skip(1);
        let run1 = run_from(next_step, step1, rest1);
        if step1 is Finish {
            assert(run1.actions =~= Seq::<ActionView>::empty());
            assert(run0.actions =~= seq![open_netns]);
        } else {
            assert(step1 == StepView::Perform { action: list_ruleset, next: phase1 });
            if rest1.len() == 0 {
                assert(run1.actions =~= seq![list_ruleset]);
            } else {
                lemma_run_goes_on(next_step, list_ruleset, phase1, rest1);
                let step2 = next_step(phase1, rest1[0]);
                assert(step2 is Finish);
                assert(run1.actions =~= seq![list_ruleset]);
            }
            assert(run0.actions =~= seq![open_netns, list_ruleset]);
        }
    }
}

/// A check of a network whose namespace does not exist ends with the error that the
/// namespace was not found, whatever the packet filter holds.
pub proof fn lemma_check_without_netns(network: &FirecrackerNetwork, outcomes: Seq<OutcomeView>)
    requires
        outcomes.len() > 0,
        outcomes[0] == OutcomeView::NotFound,
    ensures
        run_of(FirecrackerNetworkOperation::Check, network, outcomes).result == Some(
            Err::<(), FirecrackerNetworkError>(
                FirecrackerNetworkError::ObjectNotFound(FirecrackerNetworkObjectType::Netns),
            ),
        ),
{
    let operation = FirecrackerNetworkOperation::Check;
    let next_step = |phase: Phase, outcome: OutcomeView|
        run_step(operation, network, phase, outcome);
    let open_netns = ActionView::OpenNetns { netns_name: network.netns_name() };
    let phase0 = Phase::Check(CheckPhase::OpeningNetns);
    lemma_run_goes_on(next_step, open_netns, phase0, outcomes);
}

/// A check that finds the namespace ends as the look through the ruleset of the outer
/// namespace ends.
pub proof fn lemma_check_result(network: &FirecrackerNetwork, ruleset: Seq<NfObjectView>)
    ensures
        run_of(
            FirecrackerNetworkOperation::Check,
            network,
            seq![OutcomeView::Done, OutcomeView::Ruleset(ruleset)],
        ).result == Some(ruleset_complete(network, ruleset)),
{
    let operation = FirecrackerNetworkOperation::Check;
    let next_step = |phase: Phase, outcome: OutcomeView|
        run_step(operation, network, phase, outcome);
    let open_netns = ActionView::OpenNetns { netns_name: network.netns_name() };
    let list_ruleset = ActionView::GetCurrentRuleset { program: program_view(network.nft_path) };
    let phase0 = Phase::Check(CheckPhase::OpeningNetns);
    let phase1 = Phase::Check(CheckPhase::ListingRuleset);
    let rest0 = seq![OutcomeView::Done, OutcomeView::Ruleset(ruleset)];
    lemma_run_goes_on(next_step, open_netns, phase0, rest0);
    let rest1 = rest0.skip(1);
    assert(next_step(phase0, rest0[0]) == StepView::Perform { action: list_ruleset, next: phase1 });
    lemma_run_goes_on(next_step, list_ruleset, phase1, rest1);
    assert(rest1[0] == OutcomeView::Ruleset(ruleset));
}

} // verus!
