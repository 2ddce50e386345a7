//! What the operations share: the family and program of a network, the protocol name of an
//! address, and the base chains.

use crate::addr::IpAddr;
use crate::driver::{program_view, Outcome, OutcomeView};
use crate::network::{
    FirecrackerIpStack, FirecrackerNetwork, FirecrackerNetworkError, FirecrackerNetworkObjectType,
    NFT_FILTER_CHAIN, NFT_POSTROUTING_CHAIN, NFT_PREROUTING_CHAIN, NFT_TABLE,
};
use crate::nft::{
    add_cmd, same_text, Batch, Chain, ChainView, NfChainPolicy, NfChainType, NfCmdView, NfFamily,
    NfHook, NfListObject, NfListObjectView, NfObject, NfObjectView, Nftables, RuleView, Table,
    TableView,
};
use vstd::prelude::*;

verus! {

/// The name of the network-layer protocol of an address, as a rule spells it.
pub open spec fn nat_proto(addr: IpAddr) -> Seq<char> {
    match addr {
        IpAddr::V4(_) => "ip"@,
        IpAddr::V6(_) => "ip6"@,
    }
}

/// The name of the network-layer protocol of an address: `ip` or `ip6`.
pub fn nat_proto_from_addr(addr: IpAddr) -> (proto: &'static str)
    ensures
        proto@ == nat_proto(addr),
{
    match addr {
        IpAddr::V4(_) => "ip",
        IpAddr::V6(_) => "ip6",
    }
}

/// The index that the outcome of a link query holds; the error of a failed query; and
/// where the outcome holds neither, the error that the link was not found.
pub open spec fn link_index(outcome: OutcomeView) -> Result<u32, FirecrackerNetworkError> {
    match outcome {
        OutcomeView::LinkIndex(index) => Ok(index),
        OutcomeView::Failed(error) => Err(error),
        _ => Err(FirecrackerNetworkError::ObjectNotFound(FirecrackerNetworkObjectType::IpLink)),
    }
}

/// The index of a link, from the outcome of the query for it.
pub fn get_link_index(outcome: &Outcome) -> (result: Result<u32, FirecrackerNetworkError>)
    ensures
        result == link_index(outcome.deep_view()),
{
    match outcome {
        Outcome::LinkIndex(index) => Ok(*index),
        Outcome::Failed(error) => Err(*error),
        _ => Err(FirecrackerNetworkError::ObjectNotFound(FirecrackerNetworkObjectType::IpLink)),
    }
}

/// The packet-filter family that an IP stack selects.
pub open spec fn family_of_stack(stack: FirecrackerIpStack) -> NfFamily {
    match stack {
        FirecrackerIpStack::V4 => NfFamily::IP,
        FirecrackerIpStack::V6 => NfFamily::IP6,
        FirecrackerIpStack::Dual => NfFamily::INet,
    }
}

/// What the packet-filter side needs to know of a network.
pub trait FirecrackerNetworkExt {
    /// The family of the tables of the network.
    fn nf_family(&self) -> NfFamily;

    /// The packet-filter program to run, where it is not the default one.
    fn nft_program(&self) -> Option<&str>;
}

impl FirecrackerNetworkExt for FirecrackerNetwork {
    fn nf_family(&self) -> (family: NfFamily)
        ensures
            family == family_of_stack(self.ip_stack),
    {
        match self.ip_stack {
            FirecrackerIpStack::V4 => NfFamily::IP,
            FirecrackerIpStack::V6 => NfFamily::IP6,
            FirecrackerIpStack::Dual => NfFamily::INet,
        }
    }

    fn nft_program(&self) -> (program: Option<&str>)
        ensures
            (match program {
                Some(p) => Some(p@),
                None => None,
            }) == program_view(self.nft_path),
    {
        match &self.nft_path {
            Some(p) => Some(p.as_str()),
            None => None,
        }
    }
}

/// The priority of the chain for source translation.
pub const POSTROUTING_PRIORITY: i32 = 100;

/// The priority of the chain for forwarded packets.
pub const FILTER_PRIORITY: i32 = 0;

/// The priority of the chain for destination translation.
pub const PREROUTING_PRIORITY: i32 = -100;

/// The table of this library in a family.
pub open spec fn base_table(family: NfFamily) -> NfListObjectView {
    NfListObjectView::Table(TableView { family, name: NFT_TABLE@, handle: None })
}

/// A base chain of this library: one with the default policy to accept.
pub open spec fn base_chain(
    family: NfFamily,
    name: Seq<char>,
    chain_type: NfChainType,
    hook: NfHook,
    prio: i32,
) -> NfListObjectView {
    NfListObjectView::Chain(
        ChainView {
            family,
            table: NFT_TABLE@,
            name,
            handle: None,
            chain_type: Some(chain_type),
            hook: Some(hook),
            prio: Some(prio),
            policy: Some(NfChainPolicy::Accept),
        },
    )
}

/// The chain for source translation: after routing, at priority 100.
pub open spec fn postrouting_chain(family: NfFamily) -> NfListObjectView {
    base_chain(
        family,
        NFT_POSTROUTING_CHAIN@,
        NfChainType::NAT,
        NfHook::Postrouting,
        POSTROUTING_PRIORITY,
    )
}

/// The chain for forwarded packets: at the forward hook, at priority 0.
pub open spec fn filter_chain(family: NfFamily) -> NfListObjectView {
    base_chain(family, NFT_FILTER_CHAIN@, NfChainType::Filter, NfHook::Forward, FILTER_PRIORITY)
}

/// The chain for destination translation: before routing, at priority -100.
pub open spec fn prerouting_chain(family: NfFamily) -> NfListObjectView {
    base_chain(
        family,
        NFT_PREROUTING_CHAIN@,
        NfChainType::NAT,
        NfHook::Prerouting,
        PREROUTING_PRIORITY,
    )
}

/// The entry is a listed table of this name and family.
pub open spec fn is_table(object: NfObjectView, family: NfFamily, name: Seq<char>) -> bool {
    object matches NfObjectView::ListObject(NfListObjectView::Table(table)) && table.name == name
        && table.family == family
}

/// The entry is a listed chain of this name in a table of this name.
pub open spec fn is_chain(object: NfObjectView, table: Seq<char>, name: Seq<char>) -> bool {
    object matches NfObjectView::ListObject(NfListObjectView::Chain(chain)) && chain.name == name
        && chain.table == table
}

/// The ruleset lists the table of this library in the family.
pub open spec fn has_table(ruleset: Seq<NfObjectView>, family: NfFamily) -> bool {
    exists|i: int| 0 <= i < ruleset.len() && is_table(#[trigger] ruleset[i], family, NFT_TABLE@)
}

/// The ruleset lists a chain of this name in the table of this library.
pub open spec fn has_chain(ruleset: Seq<NfObjectView>, name: Seq<char>) -> bool {
    exists|i: int| 0 <= i < ruleset.len() && is_chain(#[trigger] ruleset[i], NFT_TABLE@, name)
}

/// The commands that add what the ruleset lacks of the table, the chain for source
/// translation and the chain for forwarded packets, in this order.
pub open spec fn missing_base_chains(family: NfFamily, ruleset: Seq<NfObjectView>) -> Seq<
    NfObjectView,
> {
    (if has_table(ruleset, family) {
        Seq::<NfObjectView>::empty()
    } else {
        seq![add_cmd(base_table(family))]
    }) + (if has_chain(ruleset, NFT_POSTROUTING_CHAIN@) {
        Seq::<NfObjectView>::empty()
    } else {
        seq![add_cmd(postrouting_chain(family))]
    }) + (if has_chain(ruleset, NFT_FILTER_CHAIN@) {
        Seq::<NfObjectView>::empty()
    } else {
        seq![add_cmd(filter_chain(family))]
    })
}

/// The first of the table, the chain for source translation and the chain for forwarded
/// packets that the ruleset lacks, as an error; success where it lists all three.
pub open spec fn base_chains_present(family: NfFamily, ruleset: Seq<NfObjectView>) -> Result<
    (),
    FirecrackerNetworkError,
> {
    if !has_table(ruleset, family) {
        Err(FirecrackerNetworkError::ObjectNotFound(FirecrackerNetworkObjectType::NfTable))
    } else if !has_chain(ruleset, NFT_POSTROUTING_CHAIN@) {
        Err(
            FirecrackerNetworkError::ObjectNotFound(
                FirecrackerNetworkObjectType::NfPostroutingChain,
            ),
        )
    } else if !has_chain(ruleset, NFT_FILTER_CHAIN@) {
        Err(FirecrackerNetworkError::ObjectNotFound(FirecrackerNetworkObjectType::NfFilterChain))
    } else {
        Ok(())
    }
}

/// The table of this library in a family, as an element to add.
pub fn table_object(family: NfFamily) -> (object: NfListObject)
    ensures
        object.deep_view() == base_table(family),
{
    NfListObject::Table(Table { family, name: NFT_TABLE.to_owned(), handle: None })
}

/// A base chain of this library, as an element to add.
pub fn chain_object(
    family: NfFamily,
    name: &str,
    chain_type: NfChainType,
    hook: NfHook,
    prio: i32,
) -> (object: NfListObject)
    ensures
        object.deep_view() == base_chain(family, name@, chain_type, hook, prio),
{
    NfListObject::Chain(
        Chain {
            family,
            table: NFT_TABLE.to_owned(),
            name: name.to_owned(),
            handle: None,
            chain_type: Some(chain_type),
            hook: Some(hook),
            prio: Some(prio),
            policy: Some(NfChainPolicy::Accept),
        },
    )
}

/// Which of the table and the two chains of the outer namespace the ruleset lists.
fn find_base_chains(family: NfFamily, current_ruleset: &Nftables) -> (found: (bool, bool, bool))
    ensures
        found.0 == has_table(current_ruleset.deep_view(), family),
        found.1 == has_chain(current_ruleset.deep_view(), NFT_POSTROUTING_CHAIN@),
        found.2 == has_chain(current_ruleset.deep_view(), NFT_FILTER_CHAIN@),
{
    let mut table_exists = false;
    let mut postrouting_chain_exists = false;
    let mut filter_chain_exists = false;
    let ghost ruleset = current_ruleset.deep_view();
    let mut i: usize = 0;
    while i < current_ruleset.objects.len()
        invariant
            i <= current_ruleset.objects.len(),
            ruleset == current_ruleset.deep_view(),
            ruleset.len() == current_ruleset.objects.len(),
            table_exists == has_table(ruleset.take(i as int), family),
            postrouting_chain_exists == has_chain(ruleset.take(i as int), NFT_POSTROUTING_CHAIN@),
            filter_chain_exists == has_chain(ruleset.take(i as int), NFT_FILTER_CHAIN@),
        decreases current_ruleset.objects.len() - i,
    {
        let ghost before = ruleset.take(i as int);
        let ghost after = ruleset.take(i + 1);
        assert(after == before.push(ruleset[i as int]));
        assert(current_ruleset.objects[i as int].deep_view() == ruleset[i as int]);
        proof {
            lemma_has_table_push(before, ruleset[i as int], family);
            lemma_has_chain_push(before, ruleset[i as int], NFT_POSTROUTING_CHAIN@);
            lemma_has_chain_push(before, ruleset[i as int], NFT_FILTER_CHAIN@);
        }
        match &current_ruleset.objects[i] {
            NfObject::ListObject(NfListObject::Table(table)) => {
                if same_text(table.name.as_str(), NFT_TABLE) && table.family == family {
                    table_exists = true;
                }
            },
            NfObject::ListObject(NfListObject::Chain(chain)) => {
                if same_text(chain.table.as_str(), NFT_TABLE) {
                    if same_text(chain.name.as_str(), NFT_POSTROUTING_CHAIN) {
                        postrouting_chain_exists = true;
                    }
                    if same_text(chain.name.as_str(), NFT_FILTER_CHAIN) {
                        filter_chain_exists = true;
                    }
                }
            },
            _ => {},
        }
        i += 1;
    }
    assert(ruleset.take(i as int) == ruleset);
    (table_exists, postrouting_chain_exists, filter_chain_exists)
}

/// A ruleset with one more entry lists the table if it listed it before or the entry is it.
pub proof fn lemma_has_table_push(
    ruleset: Seq<NfObjectView>,
    object: NfObjectView,
    family: NfFamily,
)
    ensures
        has_table(ruleset.push(object), family) == (has_table(ruleset, family) || is_table(
            object,
            family,
            NFT_TABLE@,
        )),
{
    let longer = ruleset.push(object);
    if has_table(ruleset, family) {
        let i = choose|i: int|
            0 <= i < ruleset.len() && is_table(#[trigger] ruleset[i], family, NFT_TABLE@);
        assert(longer[i] == ruleset[i]);
    }
    if is_table(object, family, NFT_TABLE@) {
        assert(longer[ruleset.len() as int] == object);
    }
    if has_table(longer, family) {
        let i = choose|i: int|
            0 <= i < longer.len() && is_table(#[trigger] longer[i], family, NFT_TABLE@);
        if i < ruleset.len() {
            assert(longer[i] == ruleset[i]);
        }
    }
}

/// A ruleset with one more entry lists the chain if it listed it before or the entry is it.
pub proof fn lemma_has_chain_push(ruleset: Seq<NfObjectView>, object: NfObjectView, name: Seq<char>)
    ensures
        has_chain(ruleset.push(object), name) == (has_chain(ruleset, name) || is_chain(
            object,
            NFT_TABLE@,
            name,
        )),
{
    let longer = ruleset.push(object);
    if has_chain(ruleset, name) {
        let i = choose|i: int|
            0 <= i < ruleset.len() && is_chain(#[trigger] ruleset[i], NFT_TABLE@, name);
        assert(longer[i] == ruleset[i]);
    }
    if is_chain(object, NFT_TABLE@, name) {
        assert(longer[ruleset.len() as int] == object);
    }
    if has_chain(longer, name) {
        let i = choose|i: int|
            0 <= i < longer.len() && is_chain(#[trigger] longer[i], NFT_TABLE@, name);
        if i < ruleset.len() {
            assert(longer[i] == ruleset[i]);
        }
    }
}

/// Appends to the batch the commands that add what the ruleset lacks of the table and the
/// two base chains of the outer namespace.
pub fn add_base_chains_if_needed(
    network: &FirecrackerNetwork,
    current_ruleset: &Nftables,
    batch: &mut Batch,
) -> (result: Result<(), FirecrackerNetworkError>)
    ensures
        result is Ok,
        final(batch).deep_view() == old(batch).deep_view() + missing_base_chains(
            family_of_stack(network.ip_stack),
            current_ruleset.deep_view(),
        ),
{
    let (table_exists, postrouting_chain_exists, filter_chain_exists) = find_base_chains(
        network.nf_family(),
        current_ruleset,
    );

    if !table_exists {
        batch.add(table_object(network.nf_family()));
    }

    if !postrouting_chain_exists {
        batch.add(
            chain_object(
                network.nf_family(),
                NFT_POSTROUTING_CHAIN,
                NfChainType::NAT,
                NfHook::Postrouting,
                POSTROUTING_PRIORITY,
            ),
        );
    }

    if !filter_chain_exists {
        batch.add(
            chain_object(
                network.nf_family(),
                NFT_FILTER_CHAIN,
                NfChainType::Filter,
                NfHook::Forward,
                FILTER_PRIORITY,
            ),
        );
    }

    assert(batch.deep_view() =~= old(batch).deep_view() + missing_base_chains(
        family_of_stack(network.ip_stack),
        current_ruleset.deep_view(),
    ));
    Ok(())
}

/// Tells whether the ruleset lists the table and the two base chains of the outer
/// namespace, and which of them it lacks first.
pub fn check_base_chains(network: &FirecrackerNetwork, current_ruleset: &Nftables) -> (result:
    Result<(), FirecrackerNetworkError>)
    ensures
        result == base_chains_present(
            family_of_stack(network.ip_stack),
            current_ruleset.deep_view(),
        ),
{
    let (table_exists, postrouting_chain_exists, filter_chain_exists) = find_base_chains(
        network.nf_family(),
        current_ruleset,
    );

    if !table_exists {
        return Err(FirecrackerNetworkError::ObjectNotFound(FirecrackerNetworkObjectType::NfTable));
    }

    if !postrouting_chain_exists {
        return Err(
            FirecrackerNetworkError::ObjectNotFound(
                FirecrackerNetworkObjectType::NfPostroutingChain,
            ),
        );
    }

    if !filter_chain_exists {
        return Err(
            FirecrackerNetworkError::ObjectNotFound(FirecrackerNetworkObjectType::NfFilterChain),
        );
    }

    Ok(())
}

/// An element of a command is listed as `listed`: the two are elements of one kind that
/// agree in all but the handle, and a listed rule has a handle.
pub open spec fn listed_as(object: NfListObjectView, listed: NfListObjectView) -> bool {
    match (object, listed) {
        (NfListObjectView::Table(a), NfListObjectView::Table(b)) => a.family == b.family && a.name
            == b.name,
        (NfListObjectView::Chain(a), NfListObjectView::Chain(b)) => a == (ChainView {
            handle: a.handle,
            ..b
        }),
        (NfListObjectView::Rule(a), NfListObjectView::Rule(b)) => b.handle is Some && a == (
        RuleView { handle: a.handle, ..b }),
        _ => false,
    }
}

/// The ruleset lists the element.
pub open spec fn lists(ruleset: Seq<NfObjectView>, object: NfListObjectView) -> bool {
    exists|i: int|
        0 <= i < ruleset.len() && (#[trigger] ruleset[i] matches NfObjectView::ListObject(listed)
            && listed_as(object, listed))
}

/// The ruleset lists every element that the commands add.
pub open spec fn lists_what_is_added(
    ruleset: Seq<NfObjectView>,
    commands: Seq<NfObjectView>,
) -> bool {
    forall|i: int|
        0 <= i < commands.len() ==> (#[trigger] commands[i] matches NfObjectView::CmdObject(
            NfCmdView::Add(object),
        ) ==> lists(ruleset, object))
}

/// Every entry of the ruleset `before` is an entry of the ruleset `after`.
pub open spec fn keeps(before: Seq<NfObjectView>, after: Seq<NfObjectView>) -> bool {
    forall|i: int| 0 <= i < before.len() ==> after.contains(#[trigger] before[i])
}

/// A ruleset that lists what the commands for the missing base chains add, and that keeps
/// what was listed before, has the table.
pub proof fn lemma_table_listed_after(
    family: NfFamily,
    before: Seq<NfObjectView>,
    after: Seq<NfObjectView>,
)
    requires
        keeps(before, after),
        lists_what_is_added(after, missing_base_chains(family, before)),
    ensures
        has_table(after, family),
{
    if has_table(before, family) {
        let i = choose|i: int|
            0 <= i < before.len() && is_table(#[trigger] before[i], family, NFT_TABLE@);
        assert(after.contains(before[i]));
        let j = choose|j: int| 0 <= j < after.len() && after[j] == before[i];
        assert(is_table(after[j], family, NFT_TABLE@));
    } else {
        let commands = missing_base_chains(family, before);
        assert(commands[0] == add_cmd(base_table(family)));
        assert(lists(after, base_table(family)));
        let j = choose|j: int|
            0 <= j < after.len() && (#[trigger] after[j] matches NfObjectView::ListObject(listed)
                && listed_as(base_table(family), listed));
        assert(is_table(after[j], family, NFT_TABLE@));
    }
}

/// A ruleset that lists a base chain of this library has a chain of its name.
pub proof fn lemma_listed_chain(
    after: Seq<NfObjectView>,
    family: NfFamily,
    name: Seq<char>,
    chain_type: NfChainType,
    hook: NfHook,
    prio: i32,
)
    requires
        lists(after, base_chain(family, name, chain_type, hook, prio)),
    ensures
        has_chain(after, name),
{
    let chain = base_chain(family, name, chain_type, hook, prio);
    let j = choose|j: int|
        0 <= j < after.len() && (#[trigger] after[j] matches NfObjectView::ListObject(listed)
            && listed_as(chain, listed));
    assert(is_chain(after[j], NFT_TABLE@, name));
}

/// A ruleset that keeps what was listed before has every chain that was listed before.
pub proof fn lemma_chain_kept(before: Seq<NfObjectView>, after: Seq<NfObjectView>, name: Seq<char>)
    requires
        keeps(before, after),
        has_chain(before, name),
    ensures
        has_chain(after, name),
{
    let i = choose|i: int|
            0 <= i < before.len() && is_chain(#[trigger] before[i], NFT_TABLE@, name);
    assert(after.contains(before[i]));
    let j = choose|j: int| 0 <= j < after.len() && after[j] == before[i];
    assert(is_chain(after[j], NFT_TABLE@, name));
}

/// A ruleset that lists what the commands for the missing base chains add, and that keeps
/// what was listed before, has the table and both base chains.
pub proof fn lemma_base_chains_listed_after(
    family: NfFamily,
    before: Seq<NfObjectView>,
    after: Seq<NfObjectView>,
)
    requires
        keeps(before, after),
        lists_what_is_added(after, missing_base_chains(family, before)),
    ensures
        has_table(after, family),
        has_chain(after, NFT_POSTROUTING_CHAIN@),
        has_chain(after, NFT_FILTER_CHAIN@),
{
    lemma_table_listed_after(family, before, after);
    let commands = missing_base_chains(family, before);
    let table_commands: int = if has_table(before, family) {
        0
    } else {
        1
    };
    if has_chain(before, NFT_POSTROUTING_CHAIN@) {
        lemma_chain_kept(before, after, NFT_POSTROUTING_CHAIN@);
    } else {
        assert(commands[table_commands] == add_cmd(postrouting_chain(family)));
        lemma_listed_chain(
            after,
            family,
            NFT_POSTROUTING_CHAIN@,
            NfChainType::NAT,
            NfHook::Postrouting,
            POSTROUTING_PRIORITY,
        );
    }
    if has_chain(before, NFT_FILTER_CHAIN@) {
        lemma_chain_kept(before, after, NFT_FILTER_CHAIN@);
    } else {
        assert(commands[commands.len() - 1] == add_cmd(filter_chain(family)));
        lemma_listed_chain(
            after,
            family,
            NFT_FILTER_CHAIN@,
            NfChainType::Filter,
            NfHook::Forward,
            FILTER_PRIORITY,
        );
    }
}

/// Ensuring the base chains twice adds nothing the second time: once the commands for the
/// missing base chains have been applied, so that the ruleset lists what they add and still
/// lists what it did, no base chain is missing.
pub proof fn lemma_base_chains_added_once(
    family: NfFamily,
    before: Seq<NfObjectView>,
    after: Seq<NfObjectView>,
)
    requires
        keeps(before, after),
        lists_what_is_added(after, missing_base_chains(family, before)),
    ensures
        missing_base_chains(family, after) == Seq::<NfObjectView>::empty(),
        base_chains_present(family, after) == Ok::<(), FirecrackerNetworkError>(()),
{
    lemma_base_chains_listed_after(family, before, after);
    assert(missing_base_chains(family, after) =~= Seq::<NfObjectView>::empty());
}

/// No base chain is missing from a ruleset exactly if the check of its base chains
/// succeeds.
pub proof fn lemma_nothing_missing_iff_present(family: NfFamily, ruleset: Seq<NfObjectView>)
    ensures
        missing_base_chains(family, ruleset).len() == 0 <==> base_chains_present(family, ruleset)
            is Ok,
{
}

} // verus!
