//! A network in a namespace of its own: the bodies of its rules, and the operations on it.

use crate::addr::{ip_text, lemma_ipv4_text_injective, IpAddr, IpInet};
use crate::driver::{followed_by, Outcome, OutcomeView, Step, StepView};
use crate::namespaced::add::{add_step, AddPhase};
use crate::namespaced::check::{check, check_step, CheckPhase};
use crate::namespaced::delete::{delete, delete_step, DeletePhase};
use crate::network::{
    FirecrackerNetwork, FirecrackerNetworkError, FirecrackerNetworkObjectType,
    FirecrackerNetworkOperation, NamespacedData, NFT_FILTER_CHAIN, NFT_POSTROUTING_CHAIN,
    NFT_TABLE,
};
use crate::nft::{
    same_statements, same_text, Expression, ExpressionView, MetaKey, NATFamily, NATView, NfFamily,
    NfListObject, NfListObjectView, NfObject, NfObjectView, Nftables, Rule, RuleView, Statement,
    StatementView, NAT,
};
use crate::util::{nat_proto, nat_proto_from_addr};
use vstd::prelude::*;

pub mod add;
pub mod check;
pub mod delete;
pub mod order;

verus! {

/// The statement that lets a packet pass whose meta data `key` is the interface `name`.
pub open spec fn match_interface(key: MetaKey, name: Seq<char>) -> StatementView {
    StatementView::Match { left: ExpressionView::Meta(key), right: ExpressionView::String(name) }
}

/// The statement that lets a packet pass whose header field `field` is the address.
pub open spec fn match_address(field: Seq<char>, addr: IpAddr) -> StatementView {
    StatementView::Match {
        left: ExpressionView::PayloadField { protocol: nat_proto(addr), field },
        right: ExpressionView::String(ip_text(addr)),
    }
}

/// The family that a translation to `addr` names: that of the address in a table of the
/// `inet` family, none in any other.
pub open spec fn nat_family(nf_family: NfFamily, addr: IpAddr) -> Option<NATFamily> {
    if nf_family == NfFamily::INet {
        Some(
            match addr {
                IpAddr::V4(_) => NATFamily::IP,
                IpAddr::V6(_) => NATFamily::IP6,
            },
        )
    } else {
        None
    }
}

/// The translation to `addr` in a table of the family `nf_family`.
pub open spec fn nat_to(nf_family: NfFamily, addr: IpAddr) -> NATView {
    NATView { addr: ExpressionView::String(ip_text(addr)), family: nat_family(nf_family, addr) }
}

/// Outer namespace: what comes from the inner end of the link pair and leaves through the
/// host interface is masqueraded.
pub open spec fn outer_masq(veth2_addr: IpAddr, iface_name: Seq<char>) -> Seq<StatementView> {
    seq![
        match_address("saddr"@, veth2_addr),
        match_interface(MetaKey::Oifname, iface_name),
        StatementView::Masquerade,
    ]
}

/// Outer namespace: what enters through the host interface and leaves through the outer end
/// of the link pair is accepted.
pub open spec fn outer_ingress_forward(iface_name: Seq<char>, veth1_name: Seq<char>) -> Seq<
    StatementView,
> {
    seq![
        match_interface(MetaKey::Iifname, iface_name),
        match_interface(MetaKey::Oifname, veth1_name),
        StatementView::Accept,
    ]
}

/// Outer namespace: what leaves through the host interface and entered through the outer end
/// of the link pair is accepted.
pub open spec fn outer_egress_forward(iface_name: Seq<char>, veth1_name: Seq<char>) -> Seq<
    StatementView,
> {
    seq![
        match_interface(MetaKey::Oifname, iface_name),
        match_interface(MetaKey::Iifname, veth1_name),
        StatementView::Accept,
    ]
}

/// Inner namespace: what leaves through the inner end of the link pair with the guest's
/// address as its source gets the address of that end as its source.
pub open spec fn inner_snat(
    veth2_name: Seq<char>,
    guest_addr: IpAddr,
    veth2_addr: IpAddr,
    nf_family: NfFamily,
) -> Seq<StatementView> {
    seq![
        match_interface(MetaKey::Oifname, veth2_name),
        match_address("saddr"@, guest_addr),
        StatementView::SNAT(nat_to(nf_family, veth2_addr)),
    ]
}

/// Inner namespace: what enters through the inner end of the link pair for the forwarded
/// address gets the guest's address as its destination.
pub open spec fn inner_dnat(
    veth2_name: Seq<char>,
    forwarded_guest_ip: IpAddr,
    guest_addr: IpAddr,
    nf_family: NfFamily,
) -> Seq<StatementView> {
    seq![
        match_interface(MetaKey::Iifname, veth2_name),
        match_address("daddr"@, forwarded_guest_ip),
        StatementView::DNAT(nat_to(nf_family, guest_addr)),
    ]
}

fn interface_statement(key: MetaKey, name: &str) -> (statement: Statement)
    ensures
        statement.deep_view() == match_interface(key, name@),
{
    Statement::Match { left: Expression::Meta(key), right: Expression::String(name.to_owned()) }
}

fn address_statement(field: &str, addr: IpAddr) -> (statement: Statement)
    ensures
        statement.deep_view() == match_address(field@, addr),
{
    Statement::Match {
        left: Expression::PayloadField {
            protocol: nat_proto_from_addr(addr).to_owned(),
            field: field.to_owned(),
        },
        right: Expression::String(addr.to_string()),
    }
}

fn nat_target(nf_family: NfFamily, inet: &IpInet) -> (target: NAT)
    ensures
        target.deep_view() == nat_to(nf_family, inet.addr()),
{
    NAT {
        addr: Expression::String(inet.address().to_string()),
        family: match nf_family {
            NfFamily::INet => Some(nat_family_from_inet(inet)),
            _ => None,
        },
    }
}

/// The body of the masquerade rule of the outer namespace.
pub fn outer_masq_expr(network: &FirecrackerNetwork, namespaced_data: &NamespacedData) -> (expr:
    Vec<Statement>)
    ensures
        expr.deep_view() == outer_masq(namespaced_data.veth2_ip.addr(), network.iface_name@),
{
    let expr = vec![
        address_statement("saddr", namespaced_data.veth2_ip.address()),
        interface_statement(MetaKey::Oifname, network.iface_name.as_str()),
        Statement::Masquerade,
    ];
    assert(expr.deep_view() =~= outer_masq(namespaced_data.veth2_ip.addr(), network.iface_name@));
    expr
}

/// The body of the rule of the outer namespace that forwards what comes in.
pub fn outer_ingress_forward_expr(
    network: &FirecrackerNetwork,
    namespaced_data: &NamespacedData,
) -> (expr: Vec<Statement>)
    ensures
        expr.deep_view() == outer_ingress_forward(
            network.iface_name@,
            namespaced_data.veth1_name@,
        ),
{
    let expr = vec![
        interface_statement(MetaKey::Iifname, network.iface_name.as_str()),
        interface_statement(MetaKey::Oifname, namespaced_data.veth1_name),
        Statement::Accept,
    ];
    assert(expr.deep_view() =~= outer_ingress_forward(
        network.iface_name@,
        namespaced_data.veth1_name@,
    ));
    expr
}

/// The body of the rule of the outer namespace that forwards what goes out.
pub fn outer_egress_forward_expr(
    network: &FirecrackerNetwork,
    namespaced_data: &NamespacedData,
) -> (expr: Vec<Statement>)
    ensures
        expr.deep_view() == outer_egress_forward(network.iface_name@, namespaced_data.veth1_name@),
{
    let expr = vec![
        interface_statement(MetaKey::Oifname, network.iface_name.as_str()),
        interface_statement(MetaKey::Iifname, namespaced_data.veth1_name),
        Statement::Accept,
    ];
    assert(expr.deep_view() =~= outer_egress_forward(
        network.iface_name@,
        namespaced_data.veth1_name@,
    ));
    expr
}

/// The body of the source translation rule of the inner namespace.
pub fn inner_snat_expr(
    veth2_name: String,
    guest_ip: IpInet,
    veth2_ip: IpInet,
    nf_family: NfFamily,
) -> (expr: Vec<Statement>)
    ensures
        expr.deep_view() == inner_snat(veth2_name@, guest_ip.addr(), veth2_ip.addr(), nf_family),
{
    let expr = vec![
        interface_statement(MetaKey::Oifname, veth2_name.as_str()),
        address_statement("saddr", guest_ip.address()),
        Statement::SNAT(nat_target(nf_family, &veth2_ip)),
    ];
    assert(expr.deep_view() =~= inner_snat(
        veth2_name@,
        guest_ip.addr(),
        veth2_ip.addr(),
        nf_family,
    ));
    expr
}

/// The body of the destination translation rule of the inner namespace.
pub fn inner_dnat_expr(
    veth2_name: String,
    forwarded_guest_ip: IpAddr,
    guest_ip: IpInet,
    nf_family: NfFamily,
) -> (expr: Vec<Statement>)
    ensures
        expr.deep_view() == inner_dnat(veth2_name@, forwarded_guest_ip, guest_ip.addr(), nf_family),
{
    let expr = vec![
        interface_statement(MetaKey::Iifname, veth2_name.as_str()),
        address_statement("daddr", forwarded_guest_ip),
        Statement::DNAT(nat_target(nf_family, &guest_ip)),
    ];
    assert(expr.deep_view() =~= inner_dnat(
        veth2_name@,
        forwarded_guest_ip,
        guest_ip.addr(),
        nf_family,
    ));
    expr
}

/// The translation family of an address with a prefix length.
pub fn nat_family_from_inet(inet: &IpInet) -> (family: NATFamily)
    ensures
        family == (match inet.addr() {
            IpAddr::V4(_) => NATFamily::IP,
            IpAddr::V6(_) => NATFamily::IP6,
        }),
{
    match inet.address() {
        IpAddr::V4(_) => NATFamily::IP,
        IpAddr::V6(_) => NATFamily::IP6,
    }
}

/// The body of the masquerade rule of a network.
pub open spec fn network_masq(network: &FirecrackerNetwork) -> Seq<StatementView> {
    outer_masq(network.veth2_ip().addr(), network.iface_name@)
}

/// The body of the rule of a network that forwards what comes in.
pub open spec fn network_ingress_forward(network: &FirecrackerNetwork) -> Seq<StatementView> {
    outer_ingress_forward(network.iface_name@, network.veth1_name())
}

/// The body of the rule of a network that forwards what goes out.
pub open spec fn network_egress_forward(network: &FirecrackerNetwork) -> Seq<StatementView> {
    outer_egress_forward(network.iface_name@, network.veth1_name())
}

/// A rule in a chain of the table of this library.
pub open spec fn rule_object(
    family: NfFamily,
    chain: Seq<char>,
    expr: Seq<StatementView>,
    handle: Option<u32>,
) -> NfListObjectView {
    NfListObjectView::Rule(RuleView { family, table: NFT_TABLE@, chain, expr, handle })
}

/// A rule in a chain of the table of this library, as an element of a command.
pub fn rule(family: NfFamily, chain: &str, expr: Vec<Statement>, handle: Option<u32>) -> (object:
    NfListObject)
    ensures
        object.deep_view() == rule_object(family, chain@, expr.deep_view(), handle),
{
    NfListObject::Rule(
        Rule { family, table: NFT_TABLE.to_owned(), chain: chain.to_owned(), expr, handle },
    )
}

/// The entry is a listed rule with this body, in this chain of the table of this library.
pub open spec fn is_rule(object: NfObjectView, chain: Seq<char>, expr: Seq<StatementView>) -> bool {
    object matches NfObjectView::ListObject(NfListObjectView::Rule(rule)) && rule.table
        == NFT_TABLE@ && rule.chain == chain && rule.expr == expr
}

/// The handle of the last rule of the ruleset with this body in this chain; none where no
/// rule has the body, or where the last that has it is listed without a handle.
pub open spec fn rule_handle(
    ruleset: Seq<NfObjectView>,
    chain: Seq<char>,
    expr: Seq<StatementView>,
) -> Option<u32>
    decreases ruleset.len(),
{
    if ruleset.len() == 0 {
        None
    } else if is_rule(ruleset.last(), chain, expr) {
        ruleset.last()->ListObject_0->Rule_0.handle
    } else {
        rule_handle(ruleset.drop_last(), chain, expr)
    }
}

/// The handles of the three rules of the outer namespace.
#[derive(Clone, Copy, Debug, PartialEq, Eq, Structural)]
pub struct OuterRuleHandles {
    pub masq: Option<u32>,
    pub ingress_forward: Option<u32>,
    pub egress_forward: Option<u32>,
}

/// The handles under which the ruleset lists the three outer rules of a network.
pub open spec fn outer_rule_handles(
    network: &FirecrackerNetwork,
    ruleset: Seq<NfObjectView>,
) -> OuterRuleHandles {
    OuterRuleHandles {
        masq: rule_handle(ruleset, NFT_POSTROUTING_CHAIN@, network_masq(network)),
        ingress_forward: rule_handle(ruleset, NFT_FILTER_CHAIN@, network_ingress_forward(network)),
        egress_forward: rule_handle(ruleset, NFT_FILTER_CHAIN@, network_egress_forward(network)),
    }
}

/// The first of the three outer rules that has no handle: the masquerade rule, then the
/// rule for what comes in, then the rule for what goes out.
pub open spec fn missing_rule(handles: OuterRuleHandles) -> Option<FirecrackerNetworkObjectType> {
    if handles.masq is None {
        Some(FirecrackerNetworkObjectType::NfMasqueradeRule)
    } else if handles.ingress_forward is None {
        Some(FirecrackerNetworkObjectType::NfIngressForwardRule)
    } else if handles.egress_forward is None {
        Some(FirecrackerNetworkObjectType::NfEgressForwardRule)
    } else {
        None
    }
}

/// Looks in the ruleset for the three outer rules of a network, by their bodies.
pub fn find_outer_rules(network: &FirecrackerNetwork, current_ruleset: &Nftables) -> (handles:
    OuterRuleHandles)
    ensures
        handles == outer_rule_handles(network, current_ruleset.deep_view()),
{
    let namespaced_data = network.namespaced_data();
    let masq = outer_masq_expr(network, &namespaced_data);
    let ingress_forward = outer_ingress_forward_expr(network, &namespaced_data);
    let egress_forward = outer_egress_forward_expr(network, &namespaced_data);
    let mut handles = OuterRuleHandles { masq: None, ingress_forward: None, egress_forward: None };
    let ghost ruleset = current_ruleset.deep_view();
    let mut i: usize = 0;
    while i < current_ruleset.objects.len()
        invariant
            i <= current_ruleset.objects.len(),
            ruleset == current_ruleset.deep_view(),
            ruleset.len() == current_ruleset.objects.len(),
            masq.deep_view() == network_masq(network),
            ingress_forward.deep_view() == network_ingress_forward(network),
            egress_forward.deep_view() == network_egress_forward(network),
            handles == outer_rule_handles(network, ruleset.take(i as int)),
        decreases current_ruleset.objects.len() - i,
    {
        let ghost longer = ruleset.take(i + 1);
        assert(longer.drop_last() == ruleset.take(i as int));
        assert(longer.last() == ruleset[i as int]);
        assert(current_ruleset.objects[i as int].deep_view() == ruleset[i as int]);
        match &current_ruleset.objects[i] {
            NfObject::ListObject(NfListObject::Rule(rule)) => {
                if same_text(rule.table.as_str(), NFT_TABLE) {
                    if same_text(rule.chain.as_str(), NFT_POSTROUTING_CHAIN) && same_statements(
                        &rule.expr,
                        &masq,
                    ) {
                        handles.masq = rule.handle;
                    }
                    if same_text(rule.chain.as_str(), NFT_FILTER_CHAIN) {
                        if same_statements(&rule.expr, &ingress_forward) {
                            handles.ingress_forward = rule.handle;
                        }
                        if same_statements(&rule.expr, &egress_forward) {
                            handles.egress_forward = rule.handle;
                        }
                    }
                }
            },
            _ => {},
        }
        i += 1;
    }
    assert(ruleset.take(i as int) == ruleset);
    handles
}

/// Tells whether the ruleset lists the three outer rules of a network with their handles,
/// and which of them it lacks first.
pub fn check_outer_rules(network: &FirecrackerNetwork, current_ruleset: &Nftables) -> (result:
    Result<OuterRuleHandles, FirecrackerNetworkError>)
    ensures
        result == outer_rules_present(network, current_ruleset.deep_view()),
{
    let handles = find_outer_rules(network, current_ruleset);
    if handles.masq.is_none() {
        return Err(
            FirecrackerNetworkError::ObjectNotFound(FirecrackerNetworkObjectType::NfMasqueradeRule),
        );
    }
    if handles.ingress_forward.is_none() {
        return Err(
            FirecrackerNetworkError::ObjectNotFound(
                FirecrackerNetworkObjectType::NfIngressForwardRule,
            ),
        );
    }
    if handles.egress_forward.is_none() {
        return Err(
            FirecrackerNetworkError::ObjectNotFound(
                FirecrackerNetworkObjectType::NfEgressForwardRule,
            ),
        );
    }
    Ok(handles)
}

/// The handles of the three outer rules of a network, or the first of the rules that the
/// ruleset does not list with a handle, as an error.
pub open spec fn outer_rules_present(
    network: &FirecrackerNetwork,
    ruleset: Seq<NfObjectView>,
) -> Result<OuterRuleHandles, FirecrackerNetworkError> {
    match missing_rule(outer_rule_handles(network, ruleset)) {
        Some(kind) => Err(FirecrackerNetworkError::ObjectNotFound(kind)),
        None => Ok(outer_rule_handles(network, ruleset)),
    }
}

/// How far an operation on a network has come.
#[derive(Clone, Copy, Debug, PartialEq, Eq, Structural)]
pub enum Phase {
    /// Nothing has been asked for yet.
    Start,
    /// The network is being added.
    Add(AddPhase),
    /// The network is being checked.
    Check(CheckPhase),
    /// The network is being deleted.
    Delete(DeletePhase),
}

/// The next step of an addition, as a step of an operation.
pub open spec fn add_in_turn(
    network: &FirecrackerNetwork,
    phase: AddPhase,
    outcome: OutcomeView,
) -> StepView<Phase> {
    followed_by(
        add_step(network, phase, outcome),
        |phase: AddPhase| Phase::Add(phase),
        StepView::Finish(Ok(())),
    )
}

/// The next step of a check, as a step of an operation.
pub open spec fn check_in_turn(
    network: &FirecrackerNetwork,
    phase: CheckPhase,
    outcome: OutcomeView,
) -> StepView<Phase> {
    followed_by(
        check_step(network, phase, outcome),
        |phase: CheckPhase| Phase::Check(phase),
        StepView::Finish(Ok(())),
    )
}

/// The next step of a deletion, as a step of an operation.
pub open spec fn delete_in_turn(
    network: &FirecrackerNetwork,
    phase: DeletePhase,
    outcome: OutcomeView,
) -> StepView<Phase> {
    followed_by(
        delete_step(network, phase, outcome),
        |phase: DeletePhase| Phase::Delete(phase),
        StepView::Finish(Ok(())),
    )
}

/// The next step of an operation on a network: at the start the first step of the
/// operation asked for, later the next step of the operation that is under way.
pub open spec fn run_step(
    operation: FirecrackerNetworkOperation,
    network: &FirecrackerNetwork,
    phase: Phase,
    outcome: OutcomeView,
) -> StepView<Phase> {
    match phase {
        Phase::Start => match operation {
            FirecrackerNetworkOperation::Add => add_in_turn(network, AddPhase::Start, outcome),
            FirecrackerNetworkOperation::Check => check_in_turn(
                network,
                CheckPhase::Start,
                outcome,
            ),
            FirecrackerNetworkOperation::Delete => delete_in_turn(
                network,
                DeletePhase::Start,
                outcome,
            ),
        },
        Phase::Add(phase) => add_in_turn(network, phase, outcome),
        Phase::Check(phase) => check_in_turn(network, phase, outcome),
        Phase::Delete(phase) => delete_in_turn(network, phase, outcome),
    }
}

fn run_add(network: &FirecrackerNetwork, phase: AddPhase, outcome: &Outcome) -> (step: Step<Phase>)
    ensures
        step.deep_view() == add_in_turn(network, phase, outcome.deep_view()),
{
    match crate::namespaced::add::add(network, phase, outcome) {
        Step::Perform { action, next } => Step::Perform { action, next: Phase::Add(next) },
        Step::Finish(result) => Step::Finish(result),
    }
}

fn run_check(network: &FirecrackerNetwork, phase: CheckPhase, outcome: &Outcome) -> (step: Step<
    Phase,
>)
    ensures
        step.deep_view() == check_in_turn(network, phase, outcome.deep_view()),
{
    match check(network, phase, outcome) {
        Step::Perform { action, next } => Step::Perform { action, next: Phase::Check(next) },
        Step::Finish(result) => Step::Finish(result),
    }
}

fn run_delete(network: &FirecrackerNetwork, phase: DeletePhase, outcome: &Outcome) -> (step: Step<
    Phase,
>)
    ensures
        step.deep_view() == delete_in_turn(network, phase, outcome.deep_view()),
{
    match delete(network, phase, outcome) {
        Step::Perform { action, next } => Step::Perform { action, next: Phase::Delete(next) },
        Step::Finish(result) => Step::Finish(result),
    }
}

/// The next step of an operation on a network.
///
/// The caller starts in the phase `Start`, performs each action that it is handed and
/// calls again with the phase that came with the action and the outcome of the action,
/// until it is handed the end. At the start no outcome is read.
pub fn run(
    operation: FirecrackerNetworkOperation,
    network: &FirecrackerNetwork,
    phase: Phase,
    outcome: &Outcome,
) -> (step: Step<Phase>)
    ensures
        step.deep_view() == run_step(operation, network, phase, outcome.deep_view()),
{
    match phase {
        Phase::Start => match operation {
            FirecrackerNetworkOperation::Add => run_add(network, AddPhase::Start, outcome),
            FirecrackerNetworkOperation::Check => run_check(network, CheckPhase::Start, outcome),
            FirecrackerNetworkOperation::Delete => run_delete(
                network,
                DeletePhase::Start,
                outcome,
            ),
        },
        Phase::Add(phase) => run_add(network, phase, outcome),
        Phase::Check(phase) => run_check(network, phase, outcome),
        Phase::Delete(phase) => run_delete(network, phase, outcome),
    }
}

/// The body of an outer rule is determined by the network: whatever two calls of a builder
/// on the same network return, the two bodies are equal statement by statement.
pub proof fn lemma_outer_rule_bodies_deterministic(
    network: &FirecrackerNetwork,
    namespaced_data: &NamespacedData,
    first: Vec<Statement>,
    second: Vec<Statement>,
)
    ensures
        call_ensures(outer_masq_expr, (network, namespaced_data), first) && call_ensures(
            outer_masq_expr,
            (network, namespaced_data),
            second,
        ) ==> first.deep_view() == second.deep_view(),
        call_ensures(outer_ingress_forward_expr, (network, namespaced_data), first)
            && call_ensures(outer_ingress_forward_expr, (network, namespaced_data), second)
            ==> first.deep_view() == second.deep_view(),
        call_ensures(outer_egress_forward_expr, (network, namespaced_data), first) && call_ensures(
            outer_egress_forward_expr,
            (network, namespaced_data),
            second,
        ) ==> first.deep_view() == second.deep_view(),
{
}

/// The body of a translation rule of the inner namespace is determined by what it is built
/// from: whatever two calls of a builder on the same values return, the two bodies are
/// equal statement by statement.
pub proof fn lemma_inner_rule_bodies_deterministic(
    veth2_name: String,
    forwarded_guest_ip: IpAddr,
    guest_ip: IpInet,
    veth2_ip: IpInet,
    nf_family: NfFamily,
    first: Vec<Statement>,
    second: Vec<Statement>,
)
    ensures
        call_ensures(inner_snat_expr, (veth2_name, guest_ip, veth2_ip, nf_family), first)
            && call_ensures(inner_snat_expr, (veth2_name, guest_ip, veth2_ip, nf_family), second)
            ==> first.deep_view() == second.deep_view(),
        call_ensures(
            inner_dnat_expr,
            (veth2_name, forwarded_guest_ip, guest_ip, nf_family),
            first,
        ) && call_ensures(
            inner_dnat_expr,
            (veth2_name, forwarded_guest_ip, guest_ip, nf_family),
            second,
        ) ==> first.deep_view() == second.deep_view(),
{
}

/// The bodies of the three outer rules of a network differ from one another, so that a
/// listed rule is taken for at most one of them.
pub proof fn lemma_outer_rule_bodies_differ(network: &FirecrackerNetwork)
    ensures
        network_masq(network) != network_ingress_forward(network),
        network_masq(network) != network_egress_forward(network),
        network_ingress_forward(network) != network_egress_forward(network),
{
    assert(network_masq(network)[0] != network_ingress_forward(network)[0]);
    assert(network_masq(network)[0] != network_egress_forward(network)[0]);
    assert(network_ingress_forward(network)[0] != network_egress_forward(network)[0]);
}

/// A rule body of the outer namespace tells what it was made for. Two masquerade bodies
/// are equal only for the same interface and for addresses of one family that are written
/// alike, which for IPv4 means for the same address; two forwarding bodies are equal only
/// for the same interface and the same link.
pub proof fn lemma_outer_rule_bodies_identify(
    veth2_addr: IpAddr,
    iface_name: Seq<char>,
    veth1_name: Seq<char>,
    other_veth2_addr: IpAddr,
    other_iface_name: Seq<char>,
    other_veth1_name: Seq<char>,
)
    ensures
        outer_masq(veth2_addr, iface_name) == outer_masq(other_veth2_addr, other_iface_name) ==> {
            &&& iface_name == other_iface_name
            &&& veth2_addr is V4 <==> other_veth2_addr is V4
            &&& ip_text(veth2_addr) == ip_text(other_veth2_addr)
            &&& veth2_addr is V4 ==> veth2_addr == other_veth2_addr
        },
        outer_ingress_forward(iface_name, veth1_name) == outer_ingress_forward(
            other_iface_name,
            other_veth1_name,
        ) ==> iface_name == other_iface_name && veth1_name == other_veth1_name,
        outer_egress_forward(iface_name, veth1_name) == outer_egress_forward(
            other_iface_name,
            other_veth1_name,
        ) ==> iface_name == other_iface_name && veth1_name == other_veth1_name,
{
    let masq = outer_masq(veth2_addr, iface_name);
    let other_masq = outer_masq(other_veth2_addr, other_iface_name);
    if masq == other_masq {
        assert(masq[0] == other_masq[0]);
        assert(masq[1] == other_masq[1]);
        assert(nat_proto(veth2_addr) == nat_proto(other_veth2_addr));
        reveal_strlit("ip");
        reveal_strlit("ip6");
        assert("ip"@.len() != "ip6"@.len());
        if veth2_addr is V4 {
            lemma_ipv4_text_injective(veth2_addr->V4_0, other_veth2_addr->V4_0);
        }
    }
    let ingress = outer_ingress_forward(iface_name, veth1_name);
    let other_ingress = outer_ingress_forward(other_iface_name, other_veth1_name);
    if ingress == other_ingress {
        assert(ingress[0] == other_ingress[0]);
        assert(ingress[1] == other_ingress[1]);
    }
    let egress = outer_egress_forward(iface_name, veth1_name);
    let other_egress = outer_egress_forward(other_iface_name, other_veth1_name);
    if egress == other_egress {
        assert(egress[0] == other_egress[0]);
        assert(egress[1] == other_egress[1]);
    }
}

/// Every rule that the ruleset lists has a handle, as every rule has that the kernel lists.
pub open spec fn every_rule_has_handle(ruleset: Seq<NfObjectView>) -> bool {
    forall|i: int|
        0 <= i < ruleset.len() ==> (#[trigger] ruleset[i] matches NfObjectView::ListObject(
            NfListObjectView::Rule(rule),
        ) ==> rule.handle is Some)
}

/// The ruleset lists a rule with this body in this chain of the table of this library.
pub open spec fn has_rule(
    ruleset: Seq<NfObjectView>,
    chain: Seq<char>,
    expr: Seq<StatementView>,
) -> bool {
    exists|i: int| 0 <= i < ruleset.len() && is_rule(#[trigger] ruleset[i], chain, expr)
}

/// A handle that is found is the handle of a listed rule with the body looked for.
pub proof fn lemma_handle_is_of_listed_rule(
    ruleset: Seq<NfObjectView>,
    chain: Seq<char>,
    expr: Seq<StatementView>,
)
    requires
        rule_handle(ruleset, chain, expr) is Some,
    ensures
        exists|i: int|
            0 <= i < ruleset.len() && is_rule(#[trigger] ruleset[i], chain, expr)
                && ruleset[i]->ListObject_0->Rule_0.handle == rule_handle(ruleset, chain, expr),
    decreases ruleset.len(),
{
    if is_rule(ruleset.last(), chain, expr) {
        assert(ruleset[ruleset.len() - 1] == ruleset.last());
    } else {
        let shorter = ruleset.drop_last();
        lemma_handle_is_of_listed_rule(shorter, chain, expr);
        let i = choose|i: int|
            0 <= i < shorter.len() && is_rule(#[trigger] shorter[i], chain, expr)
                && shorter[i]->ListObject_0->Rule_0.handle == rule_handle(shorter, chain, expr);
        assert(ruleset[i] == shorter[i]);
    }
}

/// In a ruleset in which every rule has a handle, a handle is found exactly for the bodies
/// that are listed.
pub proof fn lemma_listed_rule_is_found(
    ruleset: Seq<NfObjectView>,
    chain: Seq<char>,
    expr: Seq<StatementView>,
)
    requires
        every_rule_has_handle(ruleset),
    ensures
        rule_handle(ruleset, chain, expr) is Some <==> has_rule(ruleset, chain, expr),
    decreases ruleset.len(),
{
    if rule_handle(ruleset, chain, expr) is Some {
        lemma_handle_is_of_listed_rule(ruleset, chain, expr);
    }
    if has_rule(ruleset, chain, expr) {
        let i = choose|i: int|
            0 <= i < ruleset.len() && is_rule(#[trigger] ruleset[i], chain, expr);
        if is_rule(ruleset.last(), chain, expr) {
            assert(ruleset[ruleset.len() - 1] == ruleset.last());
        } else {
            let shorter = ruleset.drop_last();
            assert(i < shorter.len());
            assert(shorter[i] == ruleset[i]);
            assert forall|j: int| 0 <= j < shorter.len() implies (#[trigger] shorter[j] matches
            NfObjectView::ListObject(NfListObjectView::Rule(rule)) ==> rule.handle is Some) by {
                assert(shorter[j] == ruleset[j]);
            }
            lemma_listed_rule_is_found(shorter, chain, expr);
        }
    }
}

} // verus!
