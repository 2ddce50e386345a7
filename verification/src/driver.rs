//! The requests that an operation makes of the drivers for links, namespaces and the packet
//! filter, and what a driver reports back.
//!
//! An operation is carried out step by step: the library names the next action, the caller
//! performs it and hands back its outcome.

use crate::addr::IpAddr;
use crate::network::FirecrackerNetworkError;
use crate::nft::{NfObjectView, Nftables};
use vstd::prelude::*;

verus! {

/// The text of the optional program path.
pub open spec fn program_view(path: Option<String>) -> Option<Seq<char>> {
    match path {
        Some(p) => Some(p@),
        None => None,
    }
}

/// One request to a driver.
#[allow(inconsistent_fields)]
#[derive(Clone, Debug, PartialEq, Eq)]
pub enum Action {
    /// Create a pair of connected virtual links.
    AddVeth { veth1_name: String, veth2_name: String },
    /// Ask for the index of the link of this name.
    GetLinkIndex { link: String },
    /// Give the link an address.
    AddAddress { index: u32, address: IpAddr, prefix_len: u8 },
    /// Bring the link up.
    SetLinkUp { index: u32 },
    /// Create or open the namespace of this name and move the link into it.
    MoveLinkToNetns { index: u32, netns_name: String },
    /// Carry out the steps of the inner namespace on a thread of their own that has
    /// entered the namespace, and report how they ended.
    UseNetnsInThread { netns_name: String },
    /// Create the TAP device: persistent, and up.
    CreateTap { tap_name: String },
    /// Open a connection for link requests in the namespace of the current thread.
    ConnectNetlink,
    /// Add an IPv4 default route through the gateway.
    AddDefaultRouteV4 { gateway: u32 },
    /// Add an IPv6 default route through the gateway.
    AddDefaultRouteV6 { gateway: u128 },
    /// Add a route to the one IPv4 host `destination` (prefix length 32) through the gateway.
    AddRouteV4 { destination: u32, gateway: u32 },
    /// Add a route to the one IPv6 host `destination` (prefix length 128) through the
    /// gateway.
    AddRouteV6 { destination: u128, gateway: u128 },
    /// Read the live ruleset.
    GetCurrentRuleset { program: Option<String> },
    /// Apply the commands as a whole.
    ApplyRuleset { ruleset: Nftables, program: Option<String> },
    /// Open the namespace of this name.
    OpenNetns { netns_name: String },
    /// Open the namespace of this name and remove it.
    RemoveNetns { netns_name: String },
}

/// The view of [`Action`]: its value, with each text as a sequence of characters.
#[allow(inconsistent_fields)]
pub enum ActionView {
    AddVeth { veth1_name: Seq<char>, veth2_name: Seq<char> },
    GetLinkIndex { link: Seq<char> },
    AddAddress { index: u32, address: IpAddr, prefix_len: u8 },
    SetLinkUp { index: u32 },
    MoveLinkToNetns { index: u32, netns_name: Seq<char> },
    UseNetnsInThread { netns_name: Seq<char> },
    CreateTap { tap_name: Seq<char> },
    ConnectNetlink,
    AddDefaultRouteV4 { gateway: u32 },
    AddDefaultRouteV6 { gateway: u128 },
    AddRouteV4 { destination: u32, gateway: u32 },
    AddRouteV6 { destination: u128, gateway: u128 },
    GetCurrentRuleset { program: Option<Seq<char>> },
    ApplyRuleset { ruleset: Seq<NfObjectView>, program: Option<Seq<char>> },
    OpenNetns { netns_name: Seq<char> },
    RemoveNetns { netns_name: Seq<char> },
}

impl DeepView for Action {
    type V = ActionView;

    open spec fn deep_view(&self) -> ActionView {
        match self {
            Action::AddVeth { veth1_name, veth2_name } => ActionView::AddVeth {
                veth1_name: veth1_name@,
                veth2_name: veth2_name@,
            },
            Action::GetLinkIndex { link } => ActionView::GetLinkIndex { link: link@ },
            Action::AddAddress { index, address, prefix_len } => ActionView::AddAddress {
                index: *index,
                address: *address,
                prefix_len: *prefix_len,
            },
            Action::SetLinkUp { index } => ActionView::SetLinkUp { index: *index },
            Action::MoveLinkToNetns { index, netns_name } => ActionView::MoveLinkToNetns {
                index: *index,
                netns_name: netns_name@,
            },
            Action::UseNetnsInThread { netns_name } => ActionView::UseNetnsInThread {
                netns_name: netns_name@,
            },
            Action::CreateTap { tap_name } => ActionView::CreateTap { tap_name: tap_name@ },
            Action::ConnectNetlink => ActionView::ConnectNetlink,
            Action::AddDefaultRouteV4 { gateway } => ActionView::AddDefaultRouteV4 {
                gateway: *gateway,
            },
            Action::AddDefaultRouteV6 { gateway } => ActionView::AddDefaultRouteV6 {
                gateway: *gateway,
            },
            Action::AddRouteV4 { destination, gateway } => ActionView::AddRouteV4 {
                destination: *destination,
                gateway: *gateway,
            },
            Action::AddRouteV6 { destination, gateway } => ActionView::AddRouteV6 {
                destination: *destination,
                gateway: *gateway,
            },
            Action::GetCurrentRuleset { program } => ActionView::GetCurrentRuleset {
                program: program_view(*program),
            },
            Action::ApplyRuleset { ruleset, program } => ActionView::ApplyRuleset {
                ruleset: ruleset.deep_view(),
                program: program_view(*program),
            },
            Action::OpenNetns { netns_name } => ActionView::OpenNetns { netns_name: netns_name@ },
            Action::RemoveNetns { netns_name } => ActionView::RemoveNetns {
                netns_name: netns_name@,
            },
        }
    }
}

/// What a driver reports of an action.
#[derive(Clone, Debug, PartialEq, Eq)]
pub enum Outcome {
    /// The action was carried out, and there is nothing more to say.
    Done,
    /// The index of the link that was asked for.
    LinkIndex(u32),
    /// The live ruleset.
    Ruleset(Nftables),
    /// What was asked for does not exist.
    NotFound,
    /// The action failed.
    Failed(FirecrackerNetworkError),
}

/// The view of [`Outcome`]: its value, with each text as a sequence of characters.
pub enum OutcomeView {
    Done,
    LinkIndex(u32),
    Ruleset(Seq<NfObjectView>),
    NotFound,
    Failed(FirecrackerNetworkError),
}

impl DeepView for Outcome {
    type V = OutcomeView;

    open spec fn deep_view(&self) -> OutcomeView {
        match self {
            Outcome::Done => OutcomeView::Done,
            Outcome::LinkIndex(index) => OutcomeView::LinkIndex(*index),
            Outcome::Ruleset(ruleset) => OutcomeView::Ruleset(ruleset.deep_view()),
            Outcome::NotFound => OutcomeView::NotFound,
            Outcome::Failed(error) => OutcomeView::Failed(*error),
        }
    }
}

/// What comes next in an operation: an action to perform, with the phase in which its
/// outcome is awaited, or the end.
#[derive(Debug, PartialEq, Eq)]
pub enum Step<P> {
    Perform { action: Action, next: P },
    Finish(Result<(), FirecrackerNetworkError>),
}

/// The view of [`Step`]: its value, with each text as a sequence of characters.
pub enum StepView<P> {
    Perform { action: ActionView, next: P },
    Finish(Result<(), FirecrackerNetworkError>),
}

impl<P> DeepView for Step<P> {
    type V = StepView<P>;

    open spec fn deep_view(&self) -> StepView<P> {
        match self {
            Step::Perform { action, next } => StepView::Perform {
                action: action.deep_view(),
                next: *next,
            },
            Step::Finish(result) => StepView::Finish(*result),
        }
    }
}

/// The error that an outcome stands for, if it stands for one: the error of a failed
/// action, or `missing` where what was asked for does not exist.
pub open spec fn failure(outcome: OutcomeView, missing: FirecrackerNetworkError) -> Option<
    FirecrackerNetworkError,
> {
    match outcome {
        OutcomeView::Failed(error) => Some(error),
        OutcomeView::NotFound => Some(missing),
        _ => None,
    }
}

/// The error that an outcome stands for, if it stands for one.
pub fn failure_of(outcome: &Outcome, missing: FirecrackerNetworkError) -> (error: Option<
    FirecrackerNetworkError,
>)
    ensures
        error == failure(outcome.deep_view(), missing),
{
    match outcome {
        Outcome::Failed(error) => Some(*error),
        Outcome::NotFound => Some(missing),
        _ => None,
    }
}

/// The step after an action whose outcome holds nothing to read: the end with its error
/// where it failed, else the action that follows.
pub open spec fn proceed<P>(
    outcome: OutcomeView,
    missing: FirecrackerNetworkError,
    action: ActionView,
    next: P,
) -> StepView<P> {
    match failure(outcome, missing) {
        Some(error) => StepView::Finish(Err(error)),
        None => StepView::Perform { action, next },
    }
}

/// The step after the last action: the end, with its error where it failed.
pub open spec fn conclude<P>(outcome: OutcomeView, missing: FirecrackerNetworkError) -> StepView<
    P,
> {
    match failure(outcome, missing) {
        Some(error) => StepView::Finish(Err(error)),
        None => StepView::Finish(Ok(())),
    }
}

/// The step that follows where the steps of one part of an operation are done: its own
/// step as long as it has one, its error where it failed, and `rest` where it succeeded.
pub open spec fn followed_by<P, Q>(
    step: StepView<P>,
    wrap: spec_fn(P) -> Q,
    rest: StepView<Q>,
) -> StepView<Q> {
    match step {
        StepView::Perform { action, next } => StepView::Perform { action, next: wrap(next) },
        StepView::Finish(Err(error)) => StepView::Finish(Err(error)),
        StepView::Finish(Ok(_)) => rest,
    }
}

/// The step after an action whose outcome holds nothing to read.
pub fn proceed_with<P>(
    outcome: &Outcome,
    missing: FirecrackerNetworkError,
    action: Action,
    next: P,
) -> (step: Step<P>)
    ensures
        step.deep_view() == proceed(outcome.deep_view(), missing, action.deep_view(), next),
{
    match failure_of(outcome, missing) {
        Some(error) => Step::Finish(Err(error)),
        None => Step::Perform { action, next },
    }
}

/// The step after the last action.
pub fn conclude_with<P>(outcome: &Outcome, missing: FirecrackerNetworkError) -> (step: Step<P>)
    ensures
        step.deep_view() == conclude::<P>(outcome.deep_view(), missing),
{
    match failure_of(outcome, missing) {
        Some(error) => Step::Finish(Err(error)),
        None => Step::Finish(Ok(())),
    }
}

/// A copy of the optional program path.
pub fn copy_program(program: Option<&str>) -> (copy: Option<String>)
    ensures
        program_view(copy) == (match program {
            Some(p) => Some(p@),
            None => None,
        }),
{
    match program {
        Some(p) => Some(p.to_owned()),
        None => None,
    }
}

} // verus!
