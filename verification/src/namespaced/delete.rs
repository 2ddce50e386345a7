//! Deleting a network: its namespace goes, and so do its three rules of the outer
//! namespace; the table and the chains stay.

use crate::driver::{
    conclude, conclude_with, copy_program, proceed, proceed_with, program_view, Action,
    ActionView, Outcome, OutcomeView, Step, StepView,
};
use crate::namespaced::add::{outer_commands, outer_rule_commands};
use crate::namespaced::check::lemma_ruleset_complete_after_add;
use crate::namespaced::{
    check_outer_rules, every_rule_has_handle, network_egress_forward, network_ingress_forward,
    network_masq, outer_egress_forward_expr, outer_ingress_forward_expr, outer_masq_expr,
    outer_rule_handles, outer_rules_present, rule, rule_object, OuterRuleHandles,
};
use crate::network::{
    FirecrackerNetwork, FirecrackerNetworkError, NFT_FILTER_CHAIN, NFT_POSTROUTING_CHAIN,
};
use crate::nft::{
    delete_cmd, Batch, NfCmdView, NfListObjectView, NfObjectView, Nftables, RuleView,
};
use crate::util::{family_of_stack, keeps, lists_what_is_added, FirecrackerNetworkExt};
use vstd::prelude::*;

verus! {

/// How far the deletion of a network has come.
#[derive(Clone, Copy, Debug, PartialEq, Eq, Structural)]
pub enum DeletePhase {
    /// Nothing has been asked for yet.
    Start,
    /// The namespace is being removed.
    RemovingNetns,
    /// The ruleset of the outer namespace is being read.
    ListingRuleset,
    /// The commands that delete the rules are being applied.
    DeletingRules,
}

/// The commands that delete the three outer rules of a network under the handles given.
pub open spec fn delete_commands(network: &FirecrackerNetwork, handles: OuterRuleHandles) -> Seq<
    NfObjectView,
> {
    seq![
        delete_cmd(
            rule_object(
                family_of_stack(network.ip_stack),
                NFT_POSTROUTING_CHAIN@,
                network_masq(network),
                handles.masq,
            ),
        ),
        delete_cmd(
            rule_object(
                family_of_stack(network.ip_stack),
                NFT_FILTER_CHAIN@,
                network_ingress_forward(network),
                handles.ingress_forward,
            ),
        ),
        delete_cmd(
            rule_object(
                family_of_stack(network.ip_stack),
                NFT_FILTER_CHAIN@,
                network_egress_forward(network),
                handles.egress_forward,
            ),
        ),
    ]
}

/// The commands that delete the three outer rules of a network from a ruleset, or the
/// first of the rules that the ruleset does not list, as an error.
pub open spec fn delete_batch(network: &FirecrackerNetwork, ruleset: Seq<NfObjectView>) -> Result<
    Seq<NfObjectView>,
    FirecrackerNetworkError,
> {
    match outer_rules_present(network, ruleset) {
        Ok(handles) => Ok(delete_commands(network, handles)),
        Err(error) => Err(error),
    }
}

/// The next step of a deletion, from the phase it is in and the outcome of the action
/// that was asked for last.
pub open spec fn delete_step(
    network: &FirecrackerNetwork,
    phase: DeletePhase,
    outcome: OutcomeView,
) -> StepView<DeletePhase> {
    match phase {
        DeletePhase::Start => StepView::Perform {
            action: ActionView::RemoveNetns { netns_name: network.netns_name() },
            next: DeletePhase::RemovingNetns,
        },
        DeletePhase::RemovingNetns => proceed(
            outcome,
            FirecrackerNetworkError::NetnsError,
            ActionView::GetCurrentRuleset { program: program_view(network.nft_path) },
            DeletePhase::ListingRuleset,
        ),
        DeletePhase::ListingRuleset => match outcome {
            OutcomeView::Ruleset(ruleset) => match delete_batch(network, ruleset) {
                Ok(commands) => StepView::Perform {
                    action: ActionView::ApplyRuleset {
                        ruleset: commands,
                        program: program_view(network.nft_path),
                    },
                    next: DeletePhase::DeletingRules,
                },
                Err(error) => StepView::Finish(Err(error)),
            },
            OutcomeView::Failed(error) => StepView::Finish(Err(error)),
            _ => StepView::Finish(Err(FirecrackerNetworkError::NftablesError)),
        },
        DeletePhase::DeletingRules => conclude(outcome, FirecrackerNetworkError::NftablesError),
    }
}

/// The batch that deletes the three outer rules of a network by the handles under which
/// the ruleset lists them. Where the ruleset lacks one of them, nothing is built, and the
/// first that it lacks is the error.
pub fn delete_rules(network: &FirecrackerNetwork, current_ruleset: &Nftables) -> (result: Result<
    Batch,
    FirecrackerNetworkError,
>)
    ensures
        match result {
            Ok(batch) => delete_batch(network, current_ruleset.deep_view()) == Ok::<
                Seq<NfObjectView>,
                FirecrackerNetworkError,
            >(batch.deep_view()),
            Err(error) => delete_batch(network, current_ruleset.deep_view()) == Err::<
                Seq<NfObjectView>,
                FirecrackerNetworkError,
            >(error),
        },
{
    let handles = match check_outer_rules(network, current_ruleset) {
        Ok(handles) => handles,
        Err(error) => {
            return Err(error);
        },
    };
    let namespaced_data = network.namespaced_data();

    let mut batch = Batch::new();
    batch.delete(
        rule(
            network.nf_family(),
            NFT_POSTROUTING_CHAIN,
            outer_masq_expr(network, &namespaced_data),
            handles.masq,
        ),
    );
    batch.delete(
        rule(
            network.nf_family(),
            NFT_FILTER_CHAIN,
            outer_ingress_forward_expr(network, &namespaced_data),
            handles.ingress_forward,
        ),
    );
    batch.delete(
        rule(
            network.nf_family(),
            NFT_FILTER_CHAIN,
            outer_egress_forward_expr(network, &namespaced_data),
            handles.egress_forward,
        ),
    );
    assert(batch.deep_view() =~= delete_commands(network, handles));
    Ok(batch)
}

/// The next step of the deletion of a network.
///
/// The namespace is removed first. Then the ruleset is read and searched for the three
/// outer rules; where one is missing the deletion ends with that error before anything in
/// the packet filter is changed. Else the three rules are deleted by their handles.
pub fn delete(network: &FirecrackerNetwork, phase: DeletePhase, outcome: &Outcome) -> (step: Step<
    DeletePhase,
>)
    ensures
        step.deep_view() == delete_step(network, phase, outcome.deep_view()),
{
    match phase {
        DeletePhase::Start => {
            let namespaced_data = network.namespaced_data();
            Step::Perform {
                action: Action::RemoveNetns { netns_name: namespaced_data.netns_name.to_owned() },
                next: DeletePhase::RemovingNetns,
            }
        },
        DeletePhase::RemovingNetns => proceed_with(
            outcome,
            FirecrackerNetworkError::NetnsError,
            Action::GetCurrentRuleset { program: copy_program(network.nft_program()) },
            DeletePhase::ListingRuleset,
        ),
        DeletePhase::ListingRuleset => match outcome {
            Outcome::Ruleset(current_ruleset) => match delete_rules(network, current_ruleset) {
                Ok(batch) => Step::Perform {
                    action: Action::ApplyRuleset {
                        ruleset: batch.to_nftables(),
                        program: copy_program(network.nft_program()),
                    },
                    next: DeletePhase::DeletingRules,
                },
                Err(error) => Step::Finish(Err(error)),
            },
            Outcome::Failed(error) => Step::Finish(Err(*error)),
            _ => Step::Finish(Err(FirecrackerNetworkError::NftablesError)),
        },
        DeletePhase::DeletingRules => conclude_with(
            outcome,
            FirecrackerNetworkError::NftablesError,
        ),
    }
}

/// The command deletes the rule that the other command adds: the two rules agree in all
/// but the handle.
pub open spec fn deletes_what_is_added(delete: NfObjectView, add: NfObjectView) -> bool {
    delete matches NfObjectView::CmdObject(NfCmdView::Delete(NfListObjectView::Rule(deleted)))
        && add matches NfObjectView::CmdObject(NfCmdView::Add(NfListObjectView::Rule(added)))
        && deleted == (RuleView { handle: deleted.handle, ..added })
}

/// A deletion undoes an addition in the packet filter of the outer namespace: its three
/// commands delete the three rules that the commands of an addition add, each under the
/// handle that was found for it, and nothing else.
pub proof fn lemma_delete_undoes_add(network: &FirecrackerNetwork, handles: OuterRuleHandles)
    ensures
        delete_commands(network, handles).len() == outer_rule_commands(network).len(),
        forall|i: int|
            0 <= i < 3 ==> deletes_what_is_added(
                #[trigger] delete_commands(network, handles)[i],
                outer_rule_commands(network)[i],
            ),
        delete_commands(network, handles)[0]->CmdObject_0->Delete_0->Rule_0.handle == handles.masq,
        delete_commands(network, handles)[1]->CmdObject_0->Delete_0->Rule_0.handle
            == handles.ingress_forward,
        delete_commands(network, handles)[2]->CmdObject_0->Delete_0->Rule_0.handle
            == handles.egress_forward,
{
}

/// Once the commands of an addition have been applied to the packet filter of the outer
/// namespace, a deletion finds the three rules and deletes them. The ruleset `after` is
/// taken to list what was listed before and what the commands add, each rule with a
/// handle.
pub proof fn lemma_delete_after_add(
    network: &FirecrackerNetwork,
    before: Seq<NfObjectView>,
    after: Seq<NfObjectView>,
)
    requires
        keeps(before, after),
        lists_what_is_added(after, outer_commands(network, before)),
        every_rule_has_handle(after),
    ensures
        delete_batch(network, after) == Ok::<Seq<NfObjectView>, FirecrackerNetworkError>(
            delete_commands(network, outer_rule_handles(network, after)),
        ),
        outer_rule_handles(network, after).masq is Some,
        outer_rule_handles(network, after).ingress_forward is Some,
        outer_rule_handles(network, after).egress_forward is Some,
{
    lemma_ruleset_complete_after_add(network, before, after);
}

} // verus!
