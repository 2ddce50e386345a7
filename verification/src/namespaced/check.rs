//! Checking a network: its namespace exists, and the ruleset of the outer namespace lists
//! the table, the base chains and the three rules. Nothing is changed.

use crate::driver::{
    copy_program, proceed, proceed_with, program_view, Action, ActionView, Outcome, OutcomeView,
    Step, StepView,
};
use crate::namespaced::add::{outer_commands, outer_rule_commands};
use crate::namespaced::{
    check_outer_rules, every_rule_has_handle, has_rule, is_rule, lemma_handle_is_of_listed_rule,
    lemma_listed_rule_is_found, network_egress_forward, network_ingress_forward, network_masq,
    outer_rule_handles, outer_rules_present, rule_handle, rule_object,
};
use crate::network::{
    FirecrackerNetwork, FirecrackerNetworkError, FirecrackerNetworkObjectType, NFT_FILTER_CHAIN,
    NFT_POSTROUTING_CHAIN, NFT_TABLE,
};
use crate::nft::{NfCmdView, NfListObjectView, NfObjectView, Nftables, StatementView};
use crate::util::{
    base_chains_present, check_base_chains, family_of_stack, keeps,
    lemma_base_chains_listed_after, listed_as, lists, lists_what_is_added, missing_base_chains,
    FirecrackerNetworkExt,
};
use vstd::prelude::*;

verus! {

/// How far the check of a network has come.
#[derive(Clone, Copy, Debug, PartialEq, Eq, Structural)]
pub enum CheckPhase {
    /// Nothing has been asked for yet.
    Start,
    /// The namespace is being opened.
    OpeningNetns,
    /// The ruleset of the outer namespace is being read.
    ListingRuleset,
}

/// What the ruleset of the outer namespace lacks first: the table, the chain for source
/// translation, the chain for forwarded packets, the masquerade rule, the rule for what
/// comes in, the rule for what goes out. Success where it lists them all.
pub open spec fn ruleset_complete(
    network: &FirecrackerNetwork,
    ruleset: Seq<NfObjectView>,
) -> Result<(), FirecrackerNetworkError> {
    match base_chains_present(family_of_stack(network.ip_stack), ruleset) {
        Err(error) => Err(error),
        Ok(_) => match outer_rules_present(network, ruleset) {
            Err(error) => Err(error),
            Ok(_) => Ok(()),
        },
    }
}

/// The next step of a check.
///
/// The namespace is opened; where there is none, the check ends with the error that the
/// namespace was not found. Then the ruleset is read and looked through.
pub open spec fn check_step(
    network: &FirecrackerNetwork,
    phase: CheckPhase,
    outcome: OutcomeView,
) -> StepView<CheckPhase> {
    match phase {
        CheckPhase::Start => StepView::Perform {
            action: ActionView::OpenNetns { netns_name: network.netns_name() },
            next: CheckPhase::OpeningNetns,
        },
        CheckPhase::OpeningNetns => proceed(
            outcome,
            FirecrackerNetworkError::ObjectNotFound(FirecrackerNetworkObjectType::Netns),
            ActionView::GetCurrentRuleset { program: program_view(network.nft_path) },
            CheckPhase::ListingRuleset,
        ),
        CheckPhase::ListingRuleset => match outcome {
            OutcomeView::Ruleset(ruleset) => StepView::Finish(ruleset_complete(network, ruleset)),
            OutcomeView::Failed(error) => StepView::Finish(Err(error)),
            _ => StepView::Finish(Err(FirecrackerNetworkError::NftablesError)),
        },
    }
}

/// Tells whether the ruleset of the outer namespace lists all that a network needs there,
/// and what it lacks first.
pub fn check_ruleset(network: &FirecrackerNetwork, current_ruleset: &Nftables) -> (result: Result<
    (),
    FirecrackerNetworkError,
>)
    ensures
        result == ruleset_complete(network, current_ruleset.deep_view()),
{
    match check_base_chains(network, current_ruleset) {
        Err(error) => Err(error),
        Ok(_) => match check_outer_rules(network, current_ruleset) {
            Err(error) => Err(error),
            Ok(_) => Ok(()),
        },
    }
}

/// The next step of the check of a network.
pub fn check(network: &FirecrackerNetwork, phase: CheckPhase, outcome: &Outcome) -> (step: Step<
    CheckPhase,
>)
    ensures
        step.deep_view() == check_step(network, phase, outcome.deep_view()),
{
    match phase {
        CheckPhase::Start => {
            let namespaced_data = network.namespaced_data();
            Step::Perform {
                action: Action::OpenNetns { netns_name: namespaced_data.netns_name.to_owned() },
                next: CheckPhase::OpeningNetns,
            }
        },
        CheckPhase::OpeningNetns => proceed_with(
            outcome,
            FirecrackerNetworkError::ObjectNotFound(FirecrackerNetworkObjectType::Netns),
            Action::GetCurrentRuleset { program: copy_program(network.nft_program()) },
            CheckPhase::ListingRuleset,
        ),
        CheckPhase::ListingRuleset => match outcome {
            Outcome::Ruleset(current_ruleset) => Step::Finish(
                check_ruleset(network, current_ruleset),
            ),
            Outcome::Failed(error) => Step::Finish(Err(*error)),
            _ => Step::Finish(Err(FirecrackerNetworkError::NftablesError)),
        },
    }
}

/// A ruleset that lists a rule of the table of this library as an element lists a rule
/// with its body in its chain.
pub proof fn lemma_listed_rule_is_there(
    ruleset: Seq<NfObjectView>,
    network: &FirecrackerNetwork,
    chain: Seq<char>,
    expr: Seq<StatementView>,
)
    requires
        lists(ruleset, rule_object(family_of_stack(network.ip_stack), chain, expr, None)),
    ensures
        has_rule(ruleset, chain, expr),
{
    let object = rule_object(family_of_stack(network.ip_stack), chain, expr, None);
    let i = choose|i: int|
        0 <= i < ruleset.len() && (#[trigger] ruleset[i] matches NfObjectView::ListObject(listed)
            && listed_as(object, listed));
    assert(is_rule(ruleset[i], chain, expr));
}

/// Once the commands of an addition have been applied to the packet filter of the outer
/// namespace, the look through its ruleset succeeds. The ruleset `after` is taken to list
/// what was listed before and what the commands add, each rule with a handle.
pub proof fn lemma_ruleset_complete_after_add(
    network: &FirecrackerNetwork,
    before: Seq<NfObjectView>,
    after: Seq<NfObjectView>,
)
    requires
        keeps(before, after),
        lists_what_is_added(after, outer_commands(network, before)),
        every_rule_has_handle(after),
    ensures
        ruleset_complete(network, after) == Ok::<(), FirecrackerNetworkError>(()),
{
    let family = family_of_stack(network.ip_stack);
    let missing = missing_base_chains(family, before);
    let rules = outer_rule_commands(network);
    let commands = outer_commands(network, before);
    assert forall|i: int| 0 <= i < missing.len() implies (#[trigger] missing[i] matches
    NfObjectView::CmdObject(NfCmdView::Add(object)) ==> lists(after, object)) by {
        assert(commands[i] == missing[i]);
    }
    lemma_base_chains_listed_after(family, before, after);

    let n = missing.len() as int;
    assert(commands[n] == rules[0]);
    assert(commands[n + 1] == rules[1]);
    assert(commands[n + 2] == rules[2]);
    lemma_listed_rule_is_there(after, network, NFT_POSTROUTING_CHAIN@, network_masq(network));
    lemma_listed_rule_is_there(
        after,
        network,
        NFT_FILTER_CHAIN@,
        network_ingress_forward(network),
    );
    lemma_listed_rule_is_there(
        after,
        network,
        NFT_FILTER_CHAIN@,
        network_egress_forward(network),
    );
    lemma_listed_rule_is_found(after, NFT_POSTROUTING_CHAIN@, network_masq(network));
    lemma_listed_rule_is_found(after, NFT_FILTER_CHAIN@, network_ingress_forward(network));
    lemma_listed_rule_is_found(after, NFT_FILTER_CHAIN@, network_egress_forward(network));
}

/// A ruleset that lacks one of the three outer rules of a network does not pass: the look
/// through it ends with the error that an object was not found.
pub proof fn lemma_missing_rule_is_reported(
    network: &FirecrackerNetwork,
    ruleset: Seq<NfObjectView>,
)
    requires
        !has_rule(ruleset, NFT_POSTROUTING_CHAIN@, network_masq(network)) || !has_rule(
            ruleset,
            NFT_FILTER_CHAIN@,
            network_ingress_forward(network),
        ) || !has_rule(ruleset, NFT_FILTER_CHAIN@, network_egress_forward(network)),
    ensures
        ruleset_complete(network, ruleset) matches Err(FirecrackerNetworkError::ObjectNotFound(_)),
{
    if rule_handle(ruleset, NFT_POSTROUTING_CHAIN@, network_masq(network)) is Some {
        lemma_handle_is_of_listed_rule(ruleset, NFT_POSTROUTING_CHAIN@, network_masq(network));
    }
    if rule_handle(ruleset, NFT_FILTER_CHAIN@, network_ingress_forward(network)) is Some {
        lemma_handle_is_of_listed_rule(
            ruleset,
            NFT_FILTER_CHAIN@,
            network_ingress_forward(network),
        );
    }
    if rule_handle(ruleset, NFT_FILTER_CHAIN@, network_egress_forward(network)) is Some {
        lemma_handle_is_of_listed_rule(ruleset, NFT_FILTER_CHAIN@, network_egress_forward(network));
    }
}

/// The ruleset lists no rule of the table of this library under the handle.
pub open spec fn handle_is_gone(ruleset: Seq<NfObjectView>, handle: Option<u32>) -> bool {
    forall|i: int|
        0 <= i < ruleset.len() ==> (#[trigger] ruleset[i] matches NfObjectView::ListObject(
            NfListObjectView::Rule(rule),
        ) ==> !(rule.table == NFT_TABLE@ && rule.handle == handle))
}

/// The ruleset lists the body in the chain under one handle only.
pub open spec fn listed_under_one_handle(
    ruleset: Seq<NfObjectView>,
    chain: Seq<char>,
    expr: Seq<StatementView>,
) -> bool {
    forall|i: int|
        0 <= i < ruleset.len() && is_rule(#[trigger] ruleset[i], chain, expr)
            ==> ruleset[i]->ListObject_0->Rule_0.handle == rule_handle(
            ruleset,
            chain,
            expr,
        )
}

/// Once the rules of a network have been deleted, the look through the ruleset of the
/// outer namespace fails with the error that an object was not found. The ruleset `after`
/// is taken to list nothing that was not listed before, and no rule under the handle under
/// which the masquerade rule was found and deleted; the ruleset `before` is taken to list
/// that rule under one handle only.
pub proof fn lemma_ruleset_incomplete_after_delete(
    network: &FirecrackerNetwork,
    before: Seq<NfObjectView>,
    after: Seq<NfObjectView>,
)
    requires
        keeps(after, before),
        listed_under_one_handle(before, NFT_POSTROUTING_CHAIN@, network_masq(network)),
        handle_is_gone(after, outer_rule_handles(network, before).masq),
    ensures
        ruleset_complete(network, after) matches Err(FirecrackerNetworkError::ObjectNotFound(_)),
{
    let chain = NFT_POSTROUTING_CHAIN@;
    let body = network_masq(network);
    if has_rule(after, chain, body) {
        let i = choose|i: int| 0 <= i < after.len() && is_rule(#[trigger] after[i], chain, body);
        assert(before.contains(after[i]));
        let j = choose|j: int| 0 <= j < before.len() && before[j] == after[i];
        assert(is_rule(before[j], chain, body));
        assert(false);
    }
    lemma_missing_rule_is_reported(network, after);
}

} // verus!
