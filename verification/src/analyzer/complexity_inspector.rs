//! Structural metrics of functions.
//!
//! A source file is given as a tree: each node has a kind and its parts, in
//! source order. The metrics count what is in a function's body; the bodies of
//! closures and of functions declared inside it are not entered.

use vstd::prelude::*;
use vstd::string::*;

verus! {

/// What a node of the syntax tree is, as far as the metrics look at it.
#[derive(Debug, Clone, Copy, PartialEq, Eq, Structural)]
pub enum NodeKind {
    /// An `if`, with or without `else`.
    If,
    /// A `match`.
    Match,
    /// A `while` loop.
    While,
    /// A `for` loop.
    ForLoop,
    /// A `loop`.
    Loop,
    /// A closure; its parts are its body.
    Closure,
    /// A function declared inside a body; its parts are its own body.
    NestedFunction,
    /// A `return`.
    Return,
    /// Any other statement or expression.
    Other,
}

impl NodeKind {
    /// The constructs that open a further path through the function.
    pub open spec fn is_branch(self) -> bool {
        self == NodeKind::If || self == NodeKind::Match || self == NodeKind::While || self
            == NodeKind::ForLoop || self == NodeKind::Loop
    }

    /// The constructs whose inside is not counted.
    pub open spec fn is_opaque(self) -> bool {
        self == NodeKind::Closure || self == NodeKind::NestedFunction
    }

    /// Tests `is_branch`.
    pub fn branches(&self) -> (branch: bool)
        ensures
            branch == self.is_branch(),
    {
        match self {
            NodeKind::If | NodeKind::Match | NodeKind::While | NodeKind::ForLoop
            | NodeKind::Loop => true,
            _ => false,
        }
    }

    /// Tests `is_opaque`.
    pub fn hides_its_parts(&self) -> (opaque: bool)
        ensures
            opaque == self.is_opaque(),
    {
        match self {
            NodeKind::Closure | NodeKind::NestedFunction => true,
            _ => false,
        }
    }
}

/// A node of the syntax tree with its parts. A tree never has more nodes than
/// `usize::MAX`: every node knows the size of its subtree.
#[derive(Debug)]
pub struct SyntaxNode {
    kind: NodeKind,
    children: Vec<SyntaxNode>,
    size: usize,
}

/// The larger of two numbers.
pub open spec fn larger(a: nat, b: nat) -> nat {
    if a >= b {
        a
    } else {
        b
    }
}

impl SyntaxNode {
    /// The node's kind.
    pub closed spec fn kind(self) -> NodeKind {
        self.kind
    }

    /// The node's parts, in source order.
    pub closed spec fn children(self) -> Seq<SyntaxNode> {
        self.children@
    }

    /// The number of nodes of the subtree, the node itself included.
    pub open spec fn node_count(self) -> nat
        decreases self,
    {
        1 + Self::count_all(self.children())
    }

    /// The number of nodes of the subtrees of `nodes`.
    pub open spec fn count_all(nodes: Seq<SyntaxNode>) -> nat
        decreases nodes,
    {
        if nodes.len() == 0 {
            0
        } else {
            Self::count_all(nodes.drop_last()) + nodes.last().node_count()
        }
    }

    #[verifier::type_invariant]
    spec fn sized(self) -> bool {
        self.size as nat == self.node_count()
    }

    /// The branching constructs of the subtree that belong to the enclosing
    /// function: those inside a closure or a nested function do not count.
    pub open spec fn branch_count(self) -> nat
        decreases self,
    {
        if self.kind().is_opaque() {
            0
        } else if self.kind().is_branch() {
            1 + Self::branches_in(self.children())
        } else {
            Self::branches_in(self.children())
        }
    }

    /// The branching constructs of `nodes` taken together.
    pub open spec fn branches_in(nodes: Seq<SyntaxNode>) -> nat
        decreases nodes,
    {
        if nodes.len() == 0 {
            0
        } else {
            Self::branches_in(nodes.drop_last()) + nodes.last().branch_count()
        }
    }

    /// The `return`s of the subtree that belong to the enclosing function.
    pub open spec fn return_count(self) -> nat
        decreases self,
    {
        if self.kind().is_opaque() {
            0
        } else if self.kind() == NodeKind::Return {
            1 + Self::returns_in(self.children())
        } else {
            Self::returns_in(self.children())
        }
    }

    /// The `return`s of `nodes` taken together.
    pub open spec fn returns_in(nodes: Seq<SyntaxNode>) -> nat
        decreases nodes,
    {
        if nodes.len() == 0 {
            0
        } else {
            Self::returns_in(nodes.drop_last()) + nodes.last().return_count()
        }
    }

    /// The largest number of branching constructs of the subtree that stand
    /// one inside the other.
    pub open spec fn nesting_depth(self) -> nat
        decreases self,
    {
        if self.kind().is_opaque() {
            0
        } else if self.kind().is_branch() {
            1 + Self::deepest_in(self.children())
        } else {
            Self::deepest_in(self.children())
        }
    }

    /// The largest nesting depth among `nodes`.
    pub open spec fn deepest_in(nodes: Seq<SyntaxNode>) -> nat
        decreases nodes,
    {
        if nodes.len() == 0 {
            0
        } else {
            larger(Self::deepest_in(nodes.drop_last()), nodes.last().nesting_depth())
        }
    }

    /// No node of the subtree is a branching construct, wherever it stands.
    pub open spec fn branch_free(self) -> bool
        decreases self,
    {
        !self.kind().is_branch() && Self::all_branch_free(self.children())
    }

    /// No node of the subtrees of `nodes` is a branching construct.
    pub open spec fn all_branch_free(nodes: Seq<SyntaxNode>) -> bool
        decreases nodes,
    {
        nodes.len() == 0 || (Self::all_branch_free(nodes.drop_last()) && nodes.last().branch_free())
    }

    /// No metric of a subtree is larger than its number of nodes.
    pub proof fn lemma_metrics_bounded(self)
        ensures
            self.branch_count() <= self.node_count(),
            self.return_count() <= self.node_count(),
            self.nesting_depth() <= self.node_count(),
        decreases self,
    {
        Self::lemma_metrics_bounded_in(self.children());
    }

    /// No metric of a list of subtrees is larger than their number of nodes.
    pub proof fn lemma_metrics_bounded_in(nodes: Seq<SyntaxNode>)
        ensures
            Self::branches_in(nodes) <= Self::count_all(nodes),
            Self::returns_in(nodes) <= Self::count_all(nodes),
            Self::deepest_in(nodes) <= Self::count_all(nodes),
        decreases nodes,
    {
        if nodes.len() > 0 {
            Self::lemma_metrics_bounded_in(nodes.drop_last());
            nodes.last().lemma_metrics_bounded();
        }
    }

    /// The first `upto` subtrees have no more nodes than all of them.
    pub proof fn lemma_count_all_prefix(nodes: Seq<SyntaxNode>, upto: int)
        requires
            0 <= upto <= nodes.len(),
        ensures
            Self::count_all(nodes.take(upto)) <= Self::count_all(nodes),
        decreases nodes.len() - upto,
    {
        if upto < nodes.len() {
            Self::lemma_count_all_prefix(nodes, upto + 1);
            assert(nodes.take(upto + 1).drop_last() =~= nodes.take(upto));
        } else {
            assert(nodes.take(upto) =~= nodes);
        }
    }

    /// A node without parts.
    pub fn leaf(kind: NodeKind) -> (node: SyntaxNode)
        ensures
            node.kind() == kind,
            node.children() == Seq::<SyntaxNode>::empty(),
    {
        SyntaxNode { kind, children: Vec::new(), size: 1 }
    }

    /// A node with the given parts. `None` where the tree would have more
    /// nodes than `usize::MAX`.
    pub fn new(kind: NodeKind, children: Vec<SyntaxNode>) -> (node: Option<SyntaxNode>)
        ensures
            node is Some <==> 1 + Self::count_all(children@) <= usize::MAX,
            node matches Some(made) ==> made.kind() == kind && made.children() == children@,
    {
        let mut total: usize = 1;
        let mut i: usize = 0;
        while i < children.len()
            invariant
                i <= children.len(),
                total as nat == 1 + Self::count_all(children@.take(i as int)),
            decreases children.len() - i,
        {
            let child = &children[i];
            proof {
                use_type_invariant(child);
                assert(children@.take(i + 1).drop_last() =~= children@.take(i as int));
                Self::lemma_count_all_prefix(children@, i + 1);
            }
            if child.size > usize::MAX - total {
                return None;
            }
            total = total + child.size;
            i += 1;
        }
        assert(children@.take(i as int) =~= children@);
        Some(SyntaxNode { kind, children, size: total })
    }

    /// The node's kind.
    pub fn kind_of(&self) -> (kind: NodeKind)
        ensures
            kind == self.kind(),
    {
        self.kind
    }

    /// The node's parts.
    pub fn parts(&self) -> (parts: &Vec<SyntaxNode>)
        ensures
            parts@ == self.children(),
    {
        &self.children
    }

    /// The number of nodes of the subtree.
    pub fn size(&self) -> (size: usize)
        ensures
            size as nat == self.node_count(),
    {
        proof {
            use_type_invariant(self);
        }
        self.size
    }
}

/// The three counts of a subtree or of a list of subtrees.
struct Tally {
    branches: usize,
    returns: usize,
    depth: usize,
}

/// Counts what is in the subtree of `node`.
fn tally(node: &SyntaxNode) -> (found: Tally)
    ensures
        found.branches as nat == node.branch_count(),
        found.returns as nat == node.return_count(),
        found.depth as nat == node.nesting_depth(),
    decreases node, 1nat,
{
    proof {
        use_type_invariant(node);
        SyntaxNode::lemma_metrics_bounded_in(node.children());
    }
    if node.kind.hides_its_parts() {
        return Tally { branches: 0, returns: 0, depth: 0 };
    }
    let inner = tally_all(&node.children);
    if node.kind.branches() {
        Tally { branches: inner.branches + 1, returns: inner.returns, depth: inner.depth + 1 }
    } else if node.kind == NodeKind::Return {
        Tally { branches: inner.branches, returns: inner.returns + 1, depth: inner.depth }
    } else {
        inner
    }
}

/// Counts what is in the subtrees of `nodes`.
fn tally_all(nodes: &Vec<SyntaxNode>) -> (found: Tally)
    requires
        SyntaxNode::count_all(nodes@) <= usize::MAX,
    ensures
        found.branches as nat == SyntaxNode::branches_in(nodes@),
        found.returns as nat == SyntaxNode::returns_in(nodes@),
        found.depth as nat == SyntaxNode::deepest_in(nodes@),
    decreases nodes@, 0nat,
{
    let mut found = Tally { branches: 0, returns: 0, depth: 0 };
    let mut i: usize = 0;
    while i < nodes.len()
        invariant
            i <= nodes.len(),
            SyntaxNode::count_all(nodes@) <= usize::MAX,
            found.branches as nat == SyntaxNode::branches_in(nodes@.take(i as int)),
            found.returns as nat == SyntaxNode::returns_in(nodes@.take(i as int)),
            found.depth as nat == SyntaxNode::deepest_in(nodes@.take(i as int)),
        decreases nodes.len() - i,
    {
        let part = tally(&nodes[i]);
        proof {
            assert(nodes@.take(i + 1).drop_last() =~= nodes@.take(i as int));
            SyntaxNode::lemma_count_all_prefix(nodes@, i + 1);
            SyntaxNode::lemma_metrics_bounded_in(nodes@.take(i + 1));
        }
        found =
        Tally {
            branches: found.branches + part.branches,
            returns: found.returns + part.returns,
            depth: if found.depth >= part.depth {
                found.depth
            } else {
                part.depth
            },
        };
        i += 1;
    }
    assert(nodes@.take(i as int) =~= nodes@);
    found
}

/// A function declaration: its name, the number of its parameters, and its
/// body, a node whose parts are the body's statements in source order. The
/// kind of the body node itself is not looked at.
#[derive(Debug)]
pub struct FunctionItem {
    pub name: String,
    pub param_count: usize,
    pub body: SyntaxNode,
}

/// A top-level item of a source file.
#[derive(Debug)]
pub enum Item {
    /// A function declaration.
    Function(FunctionItem),
    /// Anything else.
    Other,
}

/// A parsed source file: its top-level items in source order.
#[derive(Debug)]
pub struct SourceFile {
    pub items: Vec<Item>,
}

/// The metrics of one function.
#[derive(Debug)]
pub struct FunctionComplexity {
    pub name: String,
    /// The number of statements that stand directly in the body.
    pub lines_of_code: usize,
    /// One more than the number of branching constructs.
    pub cyclomatic_complexity: usize,
    pub max_nesting_depth: usize,
    pub return_count: usize,
    pub param_count: usize,
}

impl FunctionItem {
    /// The function's statements.
    pub open spec fn statements(self) -> Seq<SyntaxNode> {
        self.body.children()
    }

    /// One for the path straight through, and one for each branching
    /// construct.
    pub open spec fn cyclomatic_complexity(self) -> nat {
        1 + SyntaxNode::branches_in(self.statements())
    }
}

impl FunctionComplexity {
    /// The metrics are those of `func`.
    pub open spec fn describes(self, func: FunctionItem) -> bool {
        &&& self.name@ == func.name@
        &&& self.lines_of_code as nat == func.statements().len()
        &&& self.cyclomatic_complexity as nat == func.cyclomatic_complexity()
        &&& self.max_nesting_depth as nat == SyntaxNode::deepest_in(func.statements())
        &&& self.return_count as nat == SyntaxNode::returns_in(func.statements())
        &&& self.param_count == func.param_count
    }
}

/// The function declarations among `items`, in order.
pub open spec fn functions_of(items: Seq<Item>) -> Seq<FunctionItem>
    decreases items.len(),
{
    if items.len() == 0 {
        Seq::empty()
    } else {
        match items.last() {
            Item::Function(func) => functions_of(items.drop_last()).push(func),
            Item::Other => functions_of(items.drop_last()),
        }
    }
}

/// How many of `nodes` are themselves branching constructs.
pub open spec fn branching_among(nodes: Seq<SyntaxNode>) -> nat
    decreases nodes.len(),
{
    if nodes.len() == 0 {
        0
    } else if nodes.last().kind().is_branch() {
        branching_among(nodes.drop_last()) + 1
    } else {
        branching_among(nodes.drop_last())
    }
}

/// A subtree without branching constructs has branch count and nesting
/// depth zero.
pub proof fn lemma_branch_free_counts_nothing(node: SyntaxNode)
    requires
        node.branch_free(),
    ensures
        node.branch_count() == 0,
        node.nesting_depth() == 0,
    decreases node,
{
    lemma_all_branch_free_counts_nothing(node.children());
}

/// Subtrees without branching constructs have branch count and nesting depth
/// zero.
pub proof fn lemma_all_branch_free_counts_nothing(nodes: Seq<SyntaxNode>)
    requires
        SyntaxNode::all_branch_free(nodes),
    ensures
        SyntaxNode::branches_in(nodes) == 0,
        SyntaxNode::deepest_in(nodes) == 0,
    decreases nodes,
{
    if nodes.len() > 0 {
        lemma_all_branch_free_counts_nothing(nodes.drop_last());
        lemma_branch_free_counts_nothing(nodes.last());
    }
}

/// A function with no branching construct anywhere in its body has
/// cyclomatic complexity 1.
pub proof fn law_no_branching_gives_one(func: FunctionItem)
    requires
        SyntaxNode::all_branch_free(func.statements()),
    ensures
        func.cyclomatic_complexity() == 1,
{
    lemma_all_branch_free_counts_nothing(func.statements());
}

/// Where nothing branches inside the statements of a list, the branch count
/// of the list is the number of statements that are branching constructs.
pub proof fn lemma_flat_branches(nodes: Seq<SyntaxNode>)
    requires
        forall|i: int|
            0 <= i < nodes.len() ==> SyntaxNode::all_branch_free(
                (#[trigger] nodes[i]).children(),
            ),
    ensures
        SyntaxNode::branches_in(nodes) == branching_among(nodes),
    decreases nodes.len(),
{
    if nodes.len() > 0 {
        let front = nodes.drop_last();
        assert forall|i: int| 0 <= i < front.len() implies SyntaxNode::all_branch_free(
            (#[trigger] front[i]).children(),
        ) by {
            assert(front[i] == nodes[i]);
        }
        lemma_flat_branches(front);
        let last = nodes[nodes.len() - 1];
        assert(last == nodes.last());
        lemma_all_branch_free_counts_nothing(last.children());
        assert(last.branch_count() == if last.kind().is_branch() {
            1nat
        } else {
            0nat
        });
    }
}

/// Where nothing branches inside any statement of a function, its
/// cyclomatic complexity is one more than the number of its statements that
/// are branching constructs.
pub proof fn law_top_level_branches_plus_one(func: FunctionItem)
    requires
        forall|i: int|
            0 <= i < func.statements().len() ==> SyntaxNode::all_branch_free(
                (#[trigger] func.statements()[i]).children(),
            ),
    ensures
        func.cyclomatic_complexity() == branching_among(func.statements()) + 1,
{
    lemma_flat_branches(func.statements());
}

/// The count of `branching_among` where every statement is a branching
/// construct: the number of statements.
pub proof fn lemma_all_branching(nodes: Seq<SyntaxNode>)
    requires
        forall|i: int| 0 <= i < nodes.len() ==> (#[trigger] nodes[i]).kind().is_branch(),
    ensures
        branching_among(nodes) == nodes.len(),
    decreases nodes.len(),
{
    if nodes.len() > 0 {
        let front = nodes.drop_last();
        assert forall|i: int| 0 <= i < front.len() implies (#[trigger] front[i]).kind().is_branch() by {
            assert(front[i] == nodes[i]);
        }
        lemma_all_branching(front);
        assert(nodes.last() == nodes[nodes.len() - 1]);
    }
}

/// A function whose body consists of `n` branching constructs, with nothing
/// that branches inside them, has cyclomatic complexity `n + 1`.
pub proof fn law_n_branches_give_n_plus_one(func: FunctionItem)
    requires
        forall|i: int|
            0 <= i < func.statements().len() ==> (#[trigger] func.statements()[i]).kind().is_branch()
                && SyntaxNode::all_branch_free(func.statements()[i].children()),
    ensures
        func.cyclomatic_complexity() == func.statements().len() + 1,
{
    lemma_flat_branches(func.statements());
    lemma_all_branching(func.statements());
}

/// What stands inside a closure or a nested function changes no metric of the
/// function around it.
pub proof fn law_opaque_parts_count_nothing(node: SyntaxNode)
    requires
        node.kind().is_opaque(),
    ensures
        node.branch_count() == 0,
        node.return_count() == 0,
        node.nesting_depth() == 0,
{
}

/// Statements that are closures or nested functions add nothing, whatever
/// they hold.
pub proof fn lemma_opaque_statements(nodes: Seq<SyntaxNode>)
    requires
        forall|i: int| 0 <= i < nodes.len() ==> (#[trigger] nodes[i]).kind().is_opaque(),
    ensures
        SyntaxNode::branches_in(nodes) == 0,
        SyntaxNode::returns_in(nodes) == 0,
        SyntaxNode::deepest_in(nodes) == 0,
    decreases nodes.len(),
{
    if nodes.len() > 0 {
        let front = nodes.drop_last();
        assert forall|i: int| 0 <= i < front.len() implies (#[trigger] front[i]).kind().is_opaque() by {
            assert(front[i] == nodes[i]);
        }
        lemma_opaque_statements(front);
        let last = nodes[nodes.len() - 1];
        assert(last == nodes.last());
        assert(last.branch_count() == 0);
        assert(last.return_count() == 0);
        assert(last.nesting_depth() == 0);
    }
}

/// A function whose statements are all closures or nested functions has
/// cyclomatic complexity 1, however much branches inside them.
pub proof fn law_closure_bodies_are_not_entered(func: FunctionItem)
    requires
        forall|i: int|
            0 <= i < func.statements().len() ==> (#[trigger] func.statements()[i]).kind().is_opaque(),
    ensures
        func.cyclomatic_complexity() == 1,
        SyntaxNode::deepest_in(func.statements()) == 0,
        SyntaxNode::returns_in(func.statements()) == 0,
{
    lemma_opaque_statements(func.statements());
}

/// Computes the metrics of one function.
pub fn analyze_function(func: &FunctionItem) -> (metrics: FunctionComplexity)
    ensures
        metrics.describes(*func),
        metrics.cyclomatic_complexity >= 1,
{
    let statements = func.body.parts();
    proof {
        use_type_invariant(&func.body);
        SyntaxNode::lemma_metrics_bounded_in(func.body.children());
    }
    let found = tally_all(statements);
    FunctionComplexity {
        name: func.name.clone(),
        lines_of_code: statements.len(),
        cyclomatic_complexity: found.branches + 1,
        max_nesting_depth: found.depth,
        return_count: found.returns,
        param_count: func.param_count,
    }
}

/// Computes the metrics of every function declared at the top level of
/// `file`, in source order. Other items are passed over.
pub fn analyze_file(file: &SourceFile) -> (metrics: Vec<FunctionComplexity>)
    ensures
        metrics@.len() == functions_of(file.items@).len(),
        forall|i: int|
            0 <= i < metrics@.len() ==> (#[trigger] metrics@[i]).describes(
                functions_of(file.items@)[i],
            ),
{
    let mut metrics: Vec<FunctionComplexity> = Vec::new();
    let mut i: usize = 0;
    while i < file.items.len()
        invariant
            i <= file.items.len(),
            metrics@.len() == functions_of(file.items@.take(i as int)).len(),
            forall|k: int|
                0 <= k < metrics@.len() ==> (#[trigger] metrics@[k]).describes(
                    functions_of(file.items@.take(i as int))[k],
                ),
        decreases file.items.len() - i,
    {
        proof {
            assert(file.items@.take(i + 1).drop_last() =~= file.items@.take(i as int));
        }
        match &file.items[i] {
            Item::Function(func) => {
                metrics.push(analyze_function(func));
            },
            Item::Other => {},
        }
        i += 1;
    }
    assert(file.items@.take(i as int) =~= file.items@);
    metrics
}

} // verus!
