//! The packet-filter objects that this library builds and reads: tables, chains and rules,
//! the statements that a rule is made of, rulesets and batches of commands.
//!
//! Each type that holds text has a mathematical view in which the text is a sequence of
//! characters; contracts are stated over those views.

use vstd::prelude::*;

verus! {

/// A packet-filter family.
#[derive(Clone, Copy, Debug, PartialEq, Eq, Structural)]
pub enum NfFamily {
    IP,
    IP6,
    INet,
    ARP,
    Bridge,
    NetDev,
}

/// The type of a chain.
#[derive(Clone, Copy, Debug, PartialEq, Eq, Structural)]
pub enum NfChainType {
    Filter,
    Route,
    NAT,
}

/// The default policy of a chain.
#[derive(Clone, Copy, Debug, PartialEq, Eq, Structural)]
pub enum NfChainPolicy {
    Accept,
    Drop,
}

/// The hook that a base chain is attached to.
#[derive(Clone, Copy, Debug, PartialEq, Eq, Structural)]
pub enum NfHook {
    Ingress,
    Prerouting,
    Forward,
    Input,
    Output,
    Postrouting,
    Egress,
}

/// The address family of a translation.
#[derive(Clone, Copy, Debug, PartialEq, Eq, Structural)]
pub enum NATFamily {
    IP,
    IP6,
}

/// The packet meta data that a rule of this library matches on.
#[derive(Clone, Copy, Debug, PartialEq, Eq, Structural)]
pub enum MetaKey {
    Iifname,
    Oifname,
}

/// One side of a match, or the target of a translation.
#[derive(Clone, Debug, PartialEq, Eq)]
pub enum Expression {
    /// An immediate value, written as text.
    String(String),
    /// Meta data of the packet.
    Meta(MetaKey),
    /// A named field of a protocol header.
    PayloadField { protocol: String, field: String },
    /// Any expression that this library never builds.
    Other,
}

/// The view of [`Expression`]: its value, with each text as a sequence of characters.
pub enum ExpressionView {
    String(Seq<char>),
    Meta(MetaKey),
    PayloadField { protocol: Seq<char>, field: Seq<char> },
    Other,
}

impl DeepView for Expression {
    type V = ExpressionView;

    open spec fn deep_view(&self) -> ExpressionView {
        match self {
            Expression::String(s) => ExpressionView::String(s@),
            Expression::Meta(key) => ExpressionView::Meta(*key),
            Expression::PayloadField { protocol, field } => ExpressionView::PayloadField {
                protocol: protocol@,
                field: field@,
            },
            Expression::Other => ExpressionView::Other,
        }
    }
}

/// A translation to a fixed address.
#[derive(Clone, Debug, PartialEq, Eq)]
pub struct NAT {
    /// The address to translate to.
    pub addr: Expression,
    /// The family of that address; needed in a table of the `inet` family only.
    pub family: Option<NATFamily>,
}

/// The view of [`NAT`]: its value, with each text as a sequence of characters.
pub struct NATView {
    pub addr: ExpressionView,
    pub family: Option<NATFamily>,
}

impl DeepView for NAT {
    type V = NATView;

    open spec fn deep_view(&self) -> NATView {
        NATView { addr: self.addr.deep_view(), family: self.family }
    }
}

/// A statement of a rule.
#[derive(Clone, Debug, PartialEq, Eq)]
pub enum Statement {
    /// The packet passes if the left side equals the right side.
    Match { left: Expression, right: Expression },
    /// Accept the packet.
    Accept,
    /// Translate the source to the address of the outgoing interface.
    Masquerade,
    /// Translate the source address.
    SNAT(NAT),
    /// Translate the destination address.
    DNAT(NAT),
    /// Any statement that this library never builds.
    Other,
}

/// The view of [`Statement`]: its value, with each text as a sequence of characters.
pub enum StatementView {
    Match { left: ExpressionView, right: ExpressionView },
    Accept,
    Masquerade,
    SNAT(NATView),
    DNAT(NATView),
    Other,
}

impl DeepView for Statement {
    type V = StatementView;

    open spec fn deep_view(&self) -> StatementView {
        match self {
            Statement::Match { left, right } => StatementView::Match {
                left: left.deep_view(),
                right: right.deep_view(),
            },
            Statement::Accept => StatementView::Accept,
            Statement::Masquerade => StatementView::Masquerade,
            Statement::SNAT(target) => StatementView::SNAT(target.deep_view()),
            Statement::DNAT(target) => StatementView::DNAT(target.deep_view()),
            Statement::Other => StatementView::Other,
        }
    }
}

/// Whether two texts hold the same characters.
pub fn same_text(a: &str, b: &str) -> (same: bool)
    ensures
        same == (a@ == b@),
{
    let a = a.to_owned();
    let b = b.to_owned();
    a == b
}

impl Expression {
    /// Whether two expressions are equal.
    pub fn equals(&self, other: &Expression) -> (equal: bool)
        ensures
            equal == (self.deep_view() == other.deep_view()),
    {
        match (self, other) {
            (Expression::String(a), Expression::String(b)) => same_text(a.as_str(), b.as_str()),
            (Expression::Meta(a), Expression::Meta(b)) => *a == *b,
            (
                Expression::PayloadField { protocol: p, field: f },
                Expression::PayloadField { protocol: q, field: g },
            ) => same_text(p.as_str(), q.as_str()) && same_text(f.as_str(), g.as_str()),
            (Expression::Other, Expression::Other) => true,
            _ => false,
        }
    }
}

impl NAT {
    /// Whether two translations are equal.
    pub fn equals(&self, other: &NAT) -> (equal: bool)
        ensures
            equal == (self.deep_view() == other.deep_view()),
    {
        let same_family = match (self.family, other.family) {
            (Some(a), Some(b)) => a == b,
            (None, None) => true,
            _ => false,
        };
        same_family && self.addr.equals(&other.addr)
    }
}

impl Statement {
    /// Whether two statements are equal.
    pub fn equals(&self, other: &Statement) -> (equal: bool)
        ensures
            equal == (self.deep_view() == other.deep_view()),
    {
        match (self, other) {
            (Statement::Match { left: a, right: b }, Statement::Match { left: c, right: d }) => {
                a.equals(c) && b.equals(d)
            },
            (Statement::Accept, Statement::Accept) => true,
            (Statement::Masquerade, Statement::Masquerade) => true,
            (Statement::SNAT(a), Statement::SNAT(b)) => a.equals(b),
            (Statement::DNAT(a), Statement::DNAT(b)) => a.equals(b),
            (Statement::Other, Statement::Other) => true,
            _ => false,
        }
    }
}

/// Whether two rule bodies are equal: of one length, and statement by statement.
pub fn same_statements(a: &Vec<Statement>, b: &Vec<Statement>) -> (equal: bool)
    ensures
        equal == (a.deep_view() == b.deep_view()),
{
    if a.len() != b.len() {
        assert(a.deep_view().len() != b.deep_view().len());
        return false;
    }
    let mut i: usize = 0;
    while i < a.len()
        invariant
            i <= a.len(),
            a.len() == b.len(),
            forall|j: int| 0 <= j < i ==> a.deep_view()[j] == b.deep_view()[j],
        decreases a.len() - i,
    {
        if !a[i].equals(&b[i]) {
            assert(a.deep_view()[i as int] != b.deep_view()[i as int]);
            return false;
        }
        i += 1;
    }
    assert(a.deep_view() =~= b.deep_view());
    true
}

/// A table.
#[derive(Clone, Debug, PartialEq, Eq)]
pub struct Table {
    pub family: NfFamily,
    pub name: String,
    pub handle: Option<u32>,
}

/// The view of [`Table`]: its value, with each text as a sequence of characters.
pub struct TableView {
    pub family: NfFamily,
    pub name: Seq<char>,
    pub handle: Option<u32>,
}

impl DeepView for Table {
    type V = TableView;

    open spec fn deep_view(&self) -> TableView {
        TableView { family: self.family, name: self.name@, handle: self.handle }
    }
}

/// A chain. A base chain has a type, a hook, a priority and a policy.
#[derive(Clone, Debug, PartialEq, Eq)]
pub struct Chain {
    pub family: NfFamily,
    pub table: String,
    pub name: String,
    pub handle: Option<u32>,
    pub chain_type: Option<NfChainType>,
    pub hook: Option<NfHook>,
    pub prio: Option<i32>,
    pub policy: Option<NfChainPolicy>,
}

/// The view of [`Chain`]: its value, with each text as a sequence of characters.
pub struct ChainView {
    pub family: NfFamily,
    pub table: Seq<char>,
    pub name: Seq<char>,
    pub handle: Option<u32>,
    pub chain_type: Option<NfChainType>,
    pub hook: Option<NfHook>,
    pub prio: Option<i32>,
    pub policy: Option<NfChainPolicy>,
}

impl DeepView for Chain {
    type V = ChainView;

    open spec fn deep_view(&self) -> ChainView {
        ChainView {
            family: self.family,
            table: self.table@,
            name: self.name@,
            handle: self.handle,
            chain_type: self.chain_type,
            hook: self.hook,
            prio: self.prio,
            policy: self.policy,
        }
    }
}

/// A rule: the statements of its body, and the handle that the kernel gave it.
#[derive(Clone, Debug, PartialEq, Eq)]
pub struct Rule {
    pub family: NfFamily,
    pub table: String,
    pub chain: String,
    pub expr: Vec<Statement>,
    pub handle: Option<u32>,
}

/// The view of [`Rule`]: its value, with each text as a sequence of characters.
pub struct RuleView {
    pub family: NfFamily,
    pub table: Seq<char>,
    pub chain: Seq<char>,
    pub expr: Seq<StatementView>,
    pub handle: Option<u32>,
}

impl DeepView for Rule {
    type V = RuleView;

    open spec fn deep_view(&self) -> RuleView {
        RuleView {
            family: self.family,
            table: self.table@,
            chain: self.chain@,
            expr: self.expr.deep_view(),
            handle: self.handle,
        }
    }
}

/// An element of a ruleset.
#[derive(Clone, Debug, PartialEq, Eq)]
pub enum NfListObject {
    Table(Table),
    Chain(Chain),
    Rule(Rule),
    /// Any element that this library neither builds nor reads.
    Other,
}

/// The view of [`NfListObject`]: its value, with each text as a sequence of characters.
pub enum NfListObjectView {
    Table(TableView),
    Chain(ChainView),
    Rule(RuleView),
    Other,
}

impl DeepView for NfListObject {
    type V = NfListObjectView;

    open spec fn deep_view(&self) -> NfListObjectView {
        match self {
            NfListObject::Table(table) => NfListObjectView::Table(table.deep_view()),
            NfListObject::Chain(chain) => NfListObjectView::Chain(chain.deep_view()),
            NfListObject::Rule(rule) => NfListObjectView::Rule(rule.deep_view()),
            NfListObject::Other => NfListObjectView::Other,
        }
    }
}

/// A command on an element.
#[derive(Clone, Debug, PartialEq, Eq)]
pub enum NfCmd {
    Add(NfListObject),
    Delete(NfListObject),
}

/// The view of [`NfCmd`]: its value, with each text as a sequence of characters.
pub enum NfCmdView {
    Add(NfListObjectView),
    Delete(NfListObjectView),
}

impl DeepView for NfCmd {
    type V = NfCmdView;

    open spec fn deep_view(&self) -> NfCmdView {
        match self {
            NfCmd::Add(object) => NfCmdView::Add(object.deep_view()),
            NfCmd::Delete(object) => NfCmdView::Delete(object.deep_view()),
        }
    }
}

/// An entry of a packet-filter document: a command (in what is sent) or an element (in
/// what is listed).
#[derive(Clone, Debug, PartialEq, Eq)]
pub enum NfObject {
    CmdObject(NfCmd),
    ListObject(NfListObject),
}

/// The view of [`NfObject`]: its value, with each text as a sequence of characters.
pub enum NfObjectView {
    CmdObject(NfCmdView),
    ListObject(NfListObjectView),
}

impl DeepView for NfObject {
    type V = NfObjectView;

    open spec fn deep_view(&self) -> NfObjectView {
        match self {
            NfObject::CmdObject(cmd) => NfObjectView::CmdObject(cmd.deep_view()),
            NfObject::ListObject(object) => NfObjectView::ListObject(object.deep_view()),
        }
    }
}

/// A packet-filter document: the commands to apply, or the elements of the live ruleset.
#[derive(Clone, Debug, PartialEq, Eq)]
pub struct Nftables {
    pub objects: Vec<NfObject>,
}

impl DeepView for Nftables {
    type V = Seq<NfObjectView>;

    open spec fn deep_view(&self) -> Seq<NfObjectView> {
        self.objects.deep_view()
    }
}

/// An ordered list of commands that is applied as a whole.
#[derive(Clone, Debug, PartialEq, Eq)]
pub struct Batch {
    data: Vec<NfObject>,
}

impl DeepView for Batch {
    type V = Seq<NfObjectView>;

    closed spec fn deep_view(&self) -> Seq<NfObjectView> {
        self.data.deep_view()
    }
}

/// The entry that asks to add an element.
pub open spec fn add_cmd(object: NfListObjectView) -> NfObjectView {
    NfObjectView::CmdObject(NfCmdView::Add(object))
}

/// The entry that asks to delete an element.
pub open spec fn delete_cmd(object: NfListObjectView) -> NfObjectView {
    NfObjectView::CmdObject(NfCmdView::Delete(object))
}

impl Batch {
    /// An empty batch.
    pub fn new() -> (batch: Batch)
        ensures
            batch.deep_view() == Seq::<NfObjectView>::empty(),
    {
        let batch = Batch { data: Vec::new() };
        assert(batch.deep_view() =~= Seq::<NfObjectView>::empty());
        batch
    }

    /// Appends the command to add the element.
    pub fn add(&mut self, obj: NfListObject)
        ensures
            final(self).deep_view() == old(self).deep_view().push(add_cmd(obj.deep_view())),
    {
        let ghost object = obj.deep_view();
        self.data.push(NfObject::CmdObject(NfCmd::Add(obj)));
        assert(self.deep_view() =~= old(self).deep_view().push(add_cmd(object)));
    }

    /// Appends the command to delete the element.
    pub fn delete(&mut self, obj: NfListObject)
        ensures
            final(self).deep_view() == old(self).deep_view().push(delete_cmd(obj.deep_view())),
    {
        let ghost object = obj.deep_view();
        self.data.push(NfObject::CmdObject(NfCmd::Delete(obj)));
        assert(self.deep_view() =~= old(self).deep_view().push(delete_cmd(object)));
    }

    /// The document that holds the commands of the batch, in their order.
    pub fn to_nftables(self) -> (document: Nftables)
        ensures
            document.deep_view() == self.deep_view(),
    {
        Nftables { objects: self.data }
    }
}

} // verus!
