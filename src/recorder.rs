use vstd::prelude::*;

use crate::ast::{
    ArgList, CatchBlock, Class, Constructor, ElifBlock, Expr, ExprKind, FunctionDefinition, InterpolatedStringPart,
    Literal, Reference, Scope, Stmt, StmtKind,
};
use crate::visit::{Node, Visit};

verus! {

broadcast use vstd::std_specs::vec::group_vec_axioms, vstd::seq::group_seq_axioms;

/// A reference to a node of the tree, tagged with its category.
#[derive(Debug, Clone, Copy)]
pub enum NodeRef<'ast> {
    Scope(&'ast Scope),
    Stmt(&'ast Stmt),
    Class(&'ast Class),
    Constructor(&'ast Constructor),
    Expr(&'ast Expr),
    Literal(&'ast Literal),
    Reference(&'ast Reference),
    FunctionDefinition(&'ast FunctionDefinition),
    Args(&'ast ArgList),
}

impl<'ast> View for NodeRef<'ast> {
    type V = Node;

    open spec fn view(&self) -> Node {
        match *self {
            NodeRef::Scope(n) => Node::Scope(*n),
            NodeRef::Stmt(n) => Node::Stmt(*n),
            NodeRef::Class(n) => Node::Class(*n),
            NodeRef::Constructor(n) => Node::Constructor(*n),
            NodeRef::Expr(n) => Node::Expr(*n),
            NodeRef::Literal(n) => Node::Literal(*n),
            NodeRef::Reference(n) => Node::Reference(*n),
            NodeRef::FunctionDefinition(n) => Node::FunctionDefinition(*n),
            NodeRef::Args(n) => Node::Args(*n),
        }
    }
}

/// The category of a node: which visit point it goes to.
#[derive(Debug, Clone, Copy, PartialEq, Eq, Structural)]
pub enum Category {
    Scope,
    Stmt,
    Class,
    Constructor,
    Expr,
    Literal,
    Reference,
    FunctionDefinition,
    Args,
}

pub open spec fn category(n: Node) -> Category {
    match n {
        Node::Scope(_) => Category::Scope,
        Node::Stmt(_) => Category::Stmt,
        Node::Class(_) => Category::Class,
        Node::Constructor(_) => Category::Constructor,
        Node::Expr(_) => Category::Expr,
        Node::Literal(_) => Category::Literal,
        Node::Reference(_) => Category::Reference,
        Node::FunctionDefinition(_) => Category::FunctionDefinition,
        Node::Args(_) => Category::Args,
    }
}

/// Which nodes a recorder notes: all of them, or those of one category.
pub open spec fn noted(only: Option<Category>) -> spec_fn(Node) -> bool {
    |n: Node| only is None || only == Some(category(n))
}

impl<'ast> NodeRef<'ast> {
    pub fn category(&self) -> (c: Category)
        ensures
            c == category(self@),
    {
        match self {
            NodeRef::Scope(_) => Category::Scope,
            NodeRef::Stmt(_) => Category::Stmt,
            NodeRef::Class(_) => Category::Class,
            NodeRef::Constructor(_) => Category::Constructor,
            NodeRef::Expr(_) => Category::Expr,
            NodeRef::Literal(_) => Category::Literal,
            NodeRef::Reference(_) => Category::Reference,
            NodeRef::FunctionDefinition(_) => Category::FunctionDefinition,
            NodeRef::Args(_) => Category::Args,
        }
    }
}

pub open spec fn nodes_of<'ast>(refs: Seq<NodeRef<'ast>>) -> Seq<Node> {
    refs.map_values(|r: NodeRef<'ast>| r@)
}

/// The sequence of visit points that a visitor which continues everywhere calls,
/// in order, starting from a scope; with `prune`, a for-loop statement is
/// visited without its iterable and body.
pub open spec fn trace_scope(s: Scope, prune: bool) -> Seq<Node>
    decreases s,
{
    seq![Node::Scope(s)] + trace_stmts(s.statements@, prune)
}

pub open spec fn trace_stmts(ss: Seq<Stmt>, prune: bool) -> Seq<Node>
    decreases ss,
{
    if ss.len() == 0 {
        seq![]
    } else {
        trace_stmts(ss.drop_last(), prune) + trace_stmt(ss.last(), prune)
    }
}

pub open spec fn trace_optional_scope(s: Option<Scope>, prune: bool) -> Seq<Node>
    decreases s,
{
    match s {
        Some(s) => trace_scope(s, prune),
        None => seq![],
    }
}

pub open spec fn trace_catch(c: Option<CatchBlock>, prune: bool) -> Seq<Node>
    decreases c,
{
    match c {
        Some(c) => trace_scope(c.statements, prune),
        None => seq![],
    }
}

pub open spec fn trace_elifs(elifs: Seq<ElifBlock>, prune: bool) -> Seq<Node>
    decreases elifs,
{
    if elifs.len() == 0 {
        seq![]
    } else {
        trace_elifs(elifs.drop_last(), prune) + trace_expr(elifs.last().condition, prune) + trace_scope(
            elifs.last().statements,
            prune,
        )
    }
}

pub open spec fn trace_stmt(s: Stmt, prune: bool) -> Seq<Node>
    decreases s,
{
    seq![Node::Stmt(s)] + match s.kind {
        StmtKind::Bring { .. } => seq![],
        StmtKind::VariableDef { initial_value, .. } => trace_expr(initial_value, prune),
        StmtKind::ForLoop { iterable, statements, .. } => if prune {
            seq![]
        } else {
            trace_expr(iterable, prune) + trace_scope(statements, prune)
        },
        StmtKind::While { condition, statements } => trace_expr(condition, prune) + trace_scope(
            statements,
            prune,
        ),
        StmtKind::If { condition, statements, elif_statements, else_statements } => trace_expr(
            condition,
            prune,
        ) + trace_scope(statements, prune) + trace_elifs(elif_statements@, prune)
            + trace_optional_scope(else_statements, prune),
        StmtKind::Expression(e) => trace_expr(e, prune),
        StmtKind::Assignment { variable, value } => trace_reference(variable, prune) + trace_expr(
            value,
            prune,
        ),
        StmtKind::Return(e) => match e {
            Some(e) => trace_expr(e, prune),
            None => seq![],
        },
        StmtKind::Scope(sc) => trace_scope(sc, prune),
        StmtKind::Class(c) => trace_class(c, prune),
        StmtKind::Struct { .. } => seq![],
        StmtKind::Enum { .. } => seq![],
        StmtKind::TryCatch { try_statements, catch_block, finally_statements } => trace_scope(
            try_statements,
            prune,
        ) + trace_catch(catch_block, prune) + trace_optional_scope(finally_statements, prune),
    }
}

pub open spec fn trace_methods(ms: Seq<(String, FunctionDefinition)>, prune: bool) -> Seq<Node>
    decreases ms,
{
    if ms.len() == 0 {
        seq![]
    } else {
        trace_methods(ms.drop_last(), prune) + trace_function_definition(ms.last().1, prune)
    }
}

pub open spec fn trace_class(c: Class, prune: bool) -> Seq<Node>
    decreases c,
{
    seq![Node::Class(c)] + trace_constructor(c.constructor, prune) + trace_methods(c.methods@, prune)
}

pub open spec fn trace_constructor(c: Constructor, prune: bool) -> Seq<Node>
    decreases c,
{
    seq![Node::Constructor(c)] + trace_scope(c.statements, prune)
}

pub open spec fn trace_function_definition(d: FunctionDefinition, prune: bool) -> Seq<Node>
    decreases d,
{
    seq![Node::FunctionDefinition(d)] + trace_scope(d.statements, prune)
}

pub open spec fn trace_exprs(es: Seq<Expr>, prune: bool) -> Seq<Node>
    decreases es,
{
    if es.len() == 0 {
        seq![]
    } else {
        trace_exprs(es.drop_last(), prune) + trace_expr(es.last(), prune)
    }
}

pub open spec fn trace_field_values(fs: Seq<(String, Expr)>, prune: bool) -> Seq<Node>
    decreases fs,
{
    if fs.len() == 0 {
        seq![]
    } else {
        trace_field_values(fs.drop_last(), prune) + trace_expr(fs.last().1, prune)
    }
}

pub open spec fn trace_expr(e: Expr, prune: bool) -> Seq<Node>
    decreases e,
{
    seq![Node::Expr(e)] + match e.kind {
        ExprKind::New { obj_scope, arg_list, .. } => (match obj_scope {
            Some(s) => trace_expr(*s, prune),
            None => seq![],
        }) + trace_args(arg_list, prune),
        ExprKind::Literal(l) => trace_literal(l, prune),
        ExprKind::Reference(r) => trace_reference(r, prune),
        ExprKind::Call { function, arg_list } => trace_expr(*function, prune) + trace_args(arg_list, prune),
        ExprKind::Unary { exp, .. } => trace_expr(*exp, prune),
        ExprKind::Binary { left, right, .. } => trace_expr(*left, prune) + trace_expr(*right, prune),
        ExprKind::ArrayLiteral { items, .. } => trace_exprs(items@, prune),
        ExprKind::StructLiteral { fields, .. } => trace_field_values(fields@, prune),
        ExprKind::MapLiteral { fields, .. } => trace_field_values(fields@, prune),
        ExprKind::SetLiteral { items, .. } => trace_exprs(items@, prune),
        ExprKind::FunctionClosure(d) => trace_function_definition(d, prune),
    }
}

pub open spec fn trace_parts(parts: Seq<InterpolatedStringPart>, prune: bool) -> Seq<Node>
    decreases parts,
{
    if parts.len() == 0 {
        seq![]
    } else {
        trace_parts(parts.drop_last(), prune) + match parts.last() {
            InterpolatedStringPart::Expr(e) => trace_expr(e, prune),
            InterpolatedStringPart::Static(_) => seq![],
        }
    }
}

pub open spec fn trace_literal(l: Literal, prune: bool) -> Seq<Node>
    decreases l,
{
    seq![Node::Literal(l)] + match l {
        Literal::InterpolatedString(s) => trace_parts(s.parts@, prune),
        _ => seq![],
    }
}

pub open spec fn trace_reference(r: Reference, prune: bool) -> Seq<Node>
    decreases r,
{
    seq![Node::Reference(r)] + match r {
        Reference::NestedIdentifier { object, .. } => trace_expr(*object, prune),
        Reference::Identifier(_) => seq![],
    }
}

pub open spec fn trace_args(a: ArgList, prune: bool) -> Seq<Node>
    decreases a,
{
    seq![Node::Args(a)] + trace_exprs(a.pos_args@, prune) + trace_field_values(a.named_args@, prune)
}

pub proof fn lemma_nodes_of_push<'ast>(refs: Seq<NodeRef<'ast>>, r: NodeRef<'ast>)
    ensures
        nodes_of(refs.push(r)) == nodes_of(refs).push(r@),
{
    assert(nodes_of(refs.push(r)) =~= nodes_of(refs).push(r@));
}

/// Two traversals of the same tree, by recorders that start from the same log
/// and make the same choices, end with the same log.
pub proof fn lemma_traversal_deterministic<'ast>(
    pre_a: Recorder<'ast>,
    pre_b: Recorder<'ast>,
    node: Scope,
    post_a: Recorder<'ast>,
    post_b: Recorder<'ast>,
)
    requires
        nodes_of(pre_a.log@) == nodes_of(pre_b.log@),
        pre_a.prune_for_loops == pre_b.prune_for_loops,
        pre_a.only == pre_b.only,
        Recorder::scope_visited(pre_a, node, post_a),
        Recorder::scope_visited(pre_b, node, post_b),
    ensures
        nodes_of(post_a.log@) == nodes_of(post_b.log@),
{
}

proof fn lemma_filter_all(s: Seq<Node>)
    ensures
        s.filter(noted(None)) == s,
    decreases s.len(),
{
    reveal(Seq::filter);
    if s.len() > 0 {
        lemma_filter_all(s.drop_last());
        assert(s.drop_last().push(s.last()) =~= s);
    } else {
        assert(s.filter(noted(None)) =~= s);
    }
}

/// Noting only the visits of one category, while continuing into the children
/// as before, changes nothing of the traversal. Take any visit point and node,
/// whose full trace is `visits` (`trace_scope(node, prune)` for a scope, and
/// so on, as the relations of the `Visit` impl below state): a recorder that
/// notes everything logs exactly `visits`, and one that notes only category
/// `k` logs exactly the entries of `visits` of category `k`, in the same order.
pub proof fn lemma_delegation_equivalent<'ast>(
    all_pre: Recorder<'ast>,
    one_pre: Recorder<'ast>,
    visits: Seq<Node>,
    k: Category,
    all_post: Recorder<'ast>,
    one_post: Recorder<'ast>,
)
    requires
        all_pre.log@.len() == 0,
        one_pre.log@.len() == 0,
        all_pre.only is None,
        one_pre.only == Some(k),
        Recorder::extends(all_pre, visits, all_post),
        Recorder::extends(one_pre, visits, one_post),
    ensures
        nodes_of(all_post.log@) == visits,
        nodes_of(one_post.log@) == visits.filter(|n: Node| category(n) == k),
{
    assert(nodes_of(all_pre.log@) =~= Seq::<Node>::empty());
    assert(nodes_of(one_pre.log@) =~= Seq::<Node>::empty());
    lemma_filter_all(visits);
    assert(nodes_of(all_post.log@) =~= visits);
    assert(noted(Some(k)) =~= (|n: Node| category(n) == k));
    assert(nodes_of(one_post.log@) =~= visits.filter(noted(Some(k))));
}

/// The trace of statements `a` followed by statements `b`.
pub proof fn lemma_trace_stmts_concat(a: Seq<Stmt>, b: Seq<Stmt>, prune: bool)
    ensures
        trace_stmts(a + b, prune) == trace_stmts(a, prune) + trace_stmts(b, prune),
    decreases b.len(),
{
    if b.len() == 0 {
        assert(a + b =~= a);
        assert(trace_stmts(a, prune) + trace_stmts(b, prune) =~= trace_stmts(a, prune));
    } else {
        lemma_trace_stmts_concat(a, b.drop_last(), prune);
        assert((a + b).drop_last() =~= a + b.drop_last());
        assert((a + b).last() == b.last());
        assert(trace_stmts(a + b, prune) =~= trace_stmts(a, prune) + trace_stmts(b, prune));
    }
}

/// Pruning for-loops: a for-loop statement is visited, but neither its iterable
/// nor its body; in a scope, the statements before and after it are visited in
/// order, each with all of its own visits.
pub proof fn lemma_pruned_for_loop(s: Scope, i: int)
    requires
        0 <= i < s.statements@.len(),
        s.statements@[i].kind is ForLoop,
    ensures
        trace_stmt(s.statements@[i], true) == seq![Node::Stmt(s.statements@[i])],
        trace_scope(s, true) == seq![Node::Scope(s)] + trace_stmts(s.statements@.take(i), true) + seq![
            Node::Stmt(s.statements@[i]),
        ] + trace_stmts(s.statements@.skip(i + 1), true),
{
    let ss = s.statements@;
    let st = ss[i];
    assert(trace_stmt(st, true) =~= seq![Node::Stmt(st)]);
    assert(ss =~= ss.take(i) + seq![st] + ss.skip(i + 1));
    lemma_trace_stmts_concat(ss.take(i), seq![st], true);
    lemma_trace_stmts_concat(ss.take(i) + seq![st], ss.skip(i + 1), true);
    assert(seq![st].drop_last() =~= seq![]);
    assert(trace_stmts(seq![st].drop_last(), true) =~= seq![]);
    assert(trace_stmts(seq![st], true) =~= trace_stmt(st, true));
    assert(trace_scope(s, true) =~= seq![Node::Scope(s)] + trace_stmts(ss.take(i), true) + seq![
        Node::Stmt(st),
    ] + trace_stmts(ss.skip(i + 1), true));
}

/// A visitor that notes the visit points it reaches, in order (all of them, or
/// with `only` those of one category), and continues into the children
/// everywhere, except below a for-loop statement when `prune_for_loops` is set.
pub struct Recorder<'ast> {
    pub log: Vec<NodeRef<'ast>>,
    pub prune_for_loops: bool,
    pub only: Option<Category>,
}

impl<'ast> Recorder<'ast> {
    pub fn new(prune_for_loops: bool, only: Option<Category>) -> (r: Recorder<'ast>)
        ensures
            r.log@.len() == 0,
            r.prune_for_loops == prune_for_loops,
            r.only == only,
    {
        Recorder { log: Vec::new(), prune_for_loops, only }
    }

    /// `post` extends the log of `pre` by the nodes of `visits` that `pre` notes,
    /// and keeps its choices.
    pub open spec fn extends(pre: Self, visits: Seq<Node>, post: Self) -> bool {
        &&& post.prune_for_loops == pre.prune_for_loops
        &&& post.only == pre.only
        &&& nodes_of(post.log@) == nodes_of(pre.log@) + visits.filter(noted(pre.only))
    }

    fn note(&mut self, r: NodeRef<'ast>)
        ensures
            Self::extends(*old(self), seq![r@], *final(self)),
    {
        let ghost before = self.log@;
        proof {
            reveal(Seq::filter);
            assert(seq![r@].drop_last() =~= Seq::<Node>::empty());
        }
        let keep = match self.only {
            None => true,
            Some(c) => c == r.category(),
        };
        if keep {
            self.log.push(r);
            proof {
                lemma_nodes_of_push(before, r);
                assert(seq![r@].filter(noted(self.only)) =~= seq![r@]);
                assert(nodes_of(before).push(r@) =~= nodes_of(before) + seq![r@]);
            }
        } else {
            proof {
                assert(!noted(self.only)(r@));
                assert(Seq::<Node>::empty().filter(noted(self.only)) =~= Seq::<Node>::empty());
                assert(seq![r@].filter(noted(self.only)) =~= Seq::<Node>::empty());
                assert(nodes_of(before) + Seq::<Node>::empty() =~= nodes_of(before));
            }
        }
    }

    fn record_stmts(&mut self, ss: &'ast Vec<Stmt>)
        ensures
            Self::extends(*old(self), trace_stmts(ss@, old(self).prune_for_loops), *final(self)),
        decreases ss,
    {
        let ghost base = nodes_of(self.log@);
        let ghost prune = self.prune_for_loops;
        let ghost only = self.only;
        let ghost p = noted(self.only);
        let mut i: usize = 0;
        while i < ss.len()
            invariant
                i <= ss.len(),
                self.prune_for_loops == prune,
                nodes_of(self.log@) == base + trace_stmts(ss@.take(i as int), prune).filter(p),
                self.only == only,
                p == noted(only),
            decreases ss.len() - i,
        {
            self.visit_stmt(&ss[i]);
            proof {
                assert(ss@.take(i + 1).drop_last() =~= ss@.take(i as int));
                assert(trace_stmts(ss@.take(i + 1), prune) =~= trace_stmts(
                    ss@.take(i as int),
                    prune,
                ) + trace_stmt(ss@[i as int], prune));
                assert(trace_stmts(ss@.take(i + 1), prune).filter(p) == (trace_stmts(
                    ss@.take(i as int),
                    prune,
                ) + trace_stmt(ss@[i as int], prune)).filter(p));
                assert(nodes_of(self.log@) =~= base + trace_stmts(ss@.take(i + 1), prune).filter(p));
            }
            i += 1;
        }
        assert(ss@.take(i as int) =~= ss@);
    }

    fn record_exprs(&mut self, es: &'ast Vec<Expr>)
        ensures
            Self::extends(*old(self), trace_exprs(es@, old(self).prune_for_loops), *final(self)),
        decreases es,
    {
        let ghost base = nodes_of(self.log@);
        let ghost prune = self.prune_for_loops;
        let ghost only = self.only;
        let ghost p = noted(self.only);
        let mut i: usize = 0;
        while i < es.len()
            invariant
                i <= es.len(),
                self.prune_for_loops == prune,
                nodes_of(self.log@) == base + trace_exprs(es@.take(i as int), prune).filter(p),
                self.only == only,
                p == noted(only),
            decreases es.len() - i,
        {
            self.visit_expr(&es[i]);
            proof {
                assert(es@.take(i + 1).drop_last() =~= es@.take(i as int));
                assert(trace_exprs(es@.take(i + 1), prune) =~= trace_exprs(
                    es@.take(i as int),
                    prune,
                ) + trace_expr(es@[i as int], prune));
                assert(trace_exprs(es@.take(i + 1), prune).filter(p) == (trace_exprs(
                    es@.take(i as int),
                    prune,
                ) + trace_expr(es@[i as int], prune)).filter(p));
                assert(nodes_of(self.log@) =~= base + trace_exprs(es@.take(i + 1), prune).filter(p));
            }
            i += 1;
        }
        assert(es@.take(i as int) =~= es@);
    }

    fn record_field_values(&mut self, fs: &'ast Vec<(String, Expr)>)
        ensures
            Self::extends(*old(self), trace_field_values(fs@, old(self).prune_for_loops), *final(self)),
        decreases fs,
    {
        let ghost base = nodes_of(self.log@);
        let ghost prune = self.prune_for_loops;
        let ghost only = self.only;
        let ghost p = noted(self.only);
        let mut i: usize = 0;
        while i < fs.len()
            invariant
                i <= fs.len(),
                self.prune_for_loops == prune,
                nodes_of(self.log@) == base + trace_field_values(fs@.take(i as int), prune).filter(p),
                self.only == only,
                p == noted(only),
            decreases fs.len() - i,
        {
            self.visit_expr(&fs[i].1);
            proof {
                assert(fs@.take(i + 1).drop_last() =~= fs@.take(i as int));
                assert(trace_field_values(fs@.take(i + 1), prune) =~= trace_field_values(
                    fs@.take(i as int),
                    prune,
                ) + trace_expr(fs@[i as int].1, prune));
                assert(trace_field_values(fs@.take(i + 1), prune).filter(p) == (trace_field_values(
                    fs@.take(i as int),
                    prune,
                ) + trace_expr(fs@[i as int].1, prune)).filter(p));
                assert(nodes_of(self.log@) =~= base + trace_field_values(fs@.take(i + 1), prune).filter(p));
            }
            i += 1;
        }
        assert(fs@.take(i as int) =~= fs@);
    }

    fn record_elifs(&mut self, elifs: &'ast Vec<ElifBlock>)
        ensures
            Self::extends(*old(self), trace_elifs(elifs@, old(self).prune_for_loops), *final(self)),
        decreases elifs,
    {
        let ghost base = nodes_of(self.log@);
        let ghost prune = self.prune_for_loops;
        let ghost only = self.only;
        let ghost p = noted(self.only);
        let mut i: usize = 0;
        while i < elifs.len()
            invariant
                i <= elifs.len(),
                self.prune_for_loops == prune,
                nodes_of(self.log@) == base + trace_elifs(elifs@.take(i as int), prune).filter(p),
                self.only == only,
                p == noted(only),
            decreases elifs.len() - i,
        {
            self.visit_expr(&elifs[i].condition);
            self.visit_scope(&elifs[i].statements);
            proof {
                assert(elifs@.take(i + 1).drop_last() =~= elifs@.take(i as int));
                assert(trace_elifs(elifs@.take(i + 1), prune) =~= trace_elifs(
                    elifs@.take(i as int),
                    prune,
                ) + trace_expr(elifs@[i as int].condition, prune) + trace_scope(
                    elifs@[i as int].statements,
                    prune,
                ));
                assert(trace_elifs(elifs@.take(i + 1), prune).filter(p) == (trace_elifs(
                    elifs@.take(i as int),
                    prune,
                ) + trace_expr(elifs@[i as int].condition, prune) + trace_scope(
                    elifs@[i as int].statements,
                    prune,
                )).filter(p));
                assert(nodes_of(self.log@) =~= base + trace_elifs(elifs@.take(i + 1), prune).filter(p));
            }
            i += 1;
        }
        assert(elifs@.take(i as int) =~= elifs@);
    }

    fn record_methods(&mut self, ms: &'ast Vec<(String, FunctionDefinition)>)
        ensures
            Self::extends(*old(self), trace_methods(ms@, old(self).prune_for_loops), *final(self)),
        decreases ms,
    {
        let ghost base = nodes_of(self.log@);
        let ghost prune = self.prune_for_loops;
        let ghost only = self.only;
        let ghost p = noted(self.only);
        let mut i: usize = 0;
        while i < ms.len()
            invariant
                i <= ms.len(),
                self.prune_for_loops == prune,
                nodes_of(self.log@) == base + trace_methods(ms@.take(i as int), prune).filter(p),
                self.only == only,
                p == noted(only),
            decreases ms.len() - i,
        {
            self.visit_function_definition(&ms[i].1);
            proof {
                assert(ms@.take(i + 1).drop_last() =~= ms@.take(i as int));
                assert(trace_methods(ms@.take(i + 1), prune) =~= trace_methods(
                    ms@.take(i as int),
                    prune,
                ) + trace_function_definition(ms@[i as int].1, prune));
                assert(trace_methods(ms@.take(i + 1), prune).filter(p) == (trace_methods(
                    ms@.take(i as int),
                    prune,
                ) + trace_function_definition(ms@[i as int].1, prune)).filter(p));
                assert(nodes_of(self.log@) =~= base + trace_methods(ms@.take(i + 1), prune).filter(p));
            }
            i += 1;
        }
        assert(ms@.take(i as int) =~= ms@);
    }

    fn record_parts(&mut self, parts: &'ast Vec<InterpolatedStringPart>)
        ensures
            Self::extends(*old(self), trace_parts(parts@, old(self).prune_for_loops), *final(self)),
        decreases parts,
    {
        let ghost base = nodes_of(self.log@);
        let ghost prune = self.prune_for_loops;
        let ghost only = self.only;
        let ghost p = noted(self.only);
        let mut i: usize = 0;
        while i < parts.len()
            invariant
                i <= parts.len(),
                self.prune_for_loops == prune,
                nodes_of(self.log@) == base + trace_parts(parts@.take(i as int), prune).filter(p),
                self.only == only,
                p == noted(only),
            decreases parts.len() - i,
        {
            proof {
                assert(parts@.take(i + 1).drop_last() =~= parts@.take(i as int));
            }
            if let InterpolatedStringPart::Expr(e) = &parts[i] {
                self.visit_expr(e);
                assert(trace_parts(parts@.take(i + 1), prune) =~= trace_parts(
                    parts@.take(i as int),
                    prune,
                ) + trace_expr(*e, prune));
                assert(trace_parts(parts@.take(i + 1), prune).filter(p) == (trace_parts(
                    parts@.take(i as int),
                    prune,
                ) + trace_expr(*e, prune)).filter(p));
                assert(nodes_of(self.log@) =~= base + trace_parts(parts@.take(i + 1), prune).filter(p));
            } else {
                assert(trace_parts(parts@.take(i + 1), prune) =~= trace_parts(parts@.take(i as int), prune));
            }
            i += 1;
        }
        assert(parts@.take(i as int) =~= parts@);
    }
}

impl<'ast> Visit<'ast> for Recorder<'ast> {
    open spec fn scope_visited(pre: Self, node: Scope, post: Self) -> bool {
        Self::extends(pre, trace_scope(node, pre.prune_for_loops), post)
    }

    open spec fn stmt_visited(pre: Self, node: Stmt, post: Self) -> bool {
        Self::extends(pre, trace_stmt(node, pre.prune_for_loops), post)
    }

    open spec fn class_visited(pre: Self, node: Class, post: Self) -> bool {
        Self::extends(pre, trace_class(node, pre.prune_for_loops), post)
    }

    open spec fn constructor_visited(pre: Self, node: Constructor, post: Self) -> bool {
        Self::extends(pre, trace_constructor(node, pre.prune_for_loops), post)
    }

    open spec fn expr_visited(pre: Self, node: Expr, post: Self) -> bool {
        Self::extends(pre, trace_expr(node, pre.prune_for_loops), post)
    }

    open spec fn literal_visited(pre: Self, node: Literal, post: Self) -> bool {
        Self::extends(pre, trace_literal(node, pre.prune_for_loops), post)
    }

    open spec fn reference_visited(pre: Self, node: Reference, post: Self) -> bool {
        Self::extends(pre, trace_reference(node, pre.prune_for_loops), post)
    }

    open spec fn function_definition_visited(pre: Self, node: FunctionDefinition, post: Self) -> bool {
        Self::extends(pre, trace_function_definition(node, pre.prune_for_loops), post)
    }

    open spec fn args_visited(pre: Self, node: ArgList, post: Self) -> bool {
        Self::extends(pre, trace_args(node, pre.prune_for_loops), post)
    }

    fn visit_scope(&mut self, node: &'ast Scope)
        decreases node,
    {
        let ghost base = nodes_of(self.log@);
        self.note(NodeRef::Scope(node));
        self.record_stmts(&node.statements);
        assert(nodes_of(self.log@) =~= base + trace_scope(*node, self.prune_for_loops).filter(noted(self.only)));
    }

    #[verifier::spinoff_prover]
    fn visit_stmt(&mut self, node: &'ast Stmt)
        decreases node,
    {
        let ghost base = nodes_of(self.log@);
        let ghost prune = self.prune_for_loops;
        let ghost p = noted(self.only);
        self.note(NodeRef::Stmt(node));
        let ghost head = base + seq![Node::Stmt(*node)].filter(p);
        let ghost rest: Seq<Node>;
        match &node.kind {
            StmtKind::Bring { .. } => {
                proof {
                    rest = seq![];
                }
            },
            StmtKind::VariableDef { initial_value, .. } => {
                self.visit_expr(initial_value);
                proof {
                    rest = trace_expr(*initial_value, prune);
                }
            },
            StmtKind::ForLoop { iterable, statements, .. } => {
                if !self.prune_for_loops {
                    self.visit_expr(iterable);
                    self.visit_scope(statements);
                }
                proof {
                    rest = if prune {
                        seq![]
                    } else {
                        trace_expr(*iterable, prune) + trace_scope(*statements, prune)
                    };
                }
            },
            StmtKind::While { condition, statements } => {
                self.visit_expr(condition);
                self.visit_scope(statements);
                proof {
                    rest = trace_expr(*condition, prune) + trace_scope(*statements, prune);
                }
            },
            StmtKind::If { condition, statements, elif_statements, else_statements } => {
                self.visit_expr(condition);
                self.visit_scope(statements);
                self.record_elifs(elif_statements);
                if let Some(s) = else_statements {
                    self.visit_scope(s);
                }
                proof {
                    rest = trace_expr(*condition, prune) + trace_scope(*statements, prune) + trace_elifs(
                        elif_statements@,
                        prune,
                    ) + trace_optional_scope(*else_statements, prune);
                }
            },
            StmtKind::Expression(e) => {
                self.visit_expr(e);
                proof {
                    rest = trace_expr(*e, prune);
                }
            },
            StmtKind::Assignment { variable, value } => {
                self.visit_reference(variable);
                self.visit_expr(value);
                proof {
                    rest = trace_reference(*variable, prune) + trace_expr(*value, prune);
                }
            },
            StmtKind::Return(e) => {
                if let Some(e) = e {
                    self.visit_expr(e);
                }
                proof {
                    rest = match e {
                        Some(x) => trace_expr(*x, prune),
                        None => seq![],
                    };
                }
            },
            StmtKind::Scope(s) => {
                self.visit_scope(s);
                proof {
                    rest = trace_scope(*s, prune);
                }
            },
            StmtKind::Class(c) => {
                self.visit_class(c);
                proof {
                    rest = trace_class(*c, prune);
                }
            },
            StmtKind::Struct { .. } => {
                proof {
                    rest = seq![];
                }
            },
            StmtKind::Enum { .. } => {
                proof {
                    rest = seq![];
                }
            },
            StmtKind::TryCatch { try_statements, catch_block, finally_statements } => {
                self.visit_scope(try_statements);
                if let Some(c) = catch_block {
                    self.visit_scope(&c.statements);
                }
                if let Some(s) = finally_statements {
                    self.visit_scope(s);
                }
                proof {
                    rest = trace_scope(*try_statements, prune) + trace_catch(*catch_block, prune)
                        + trace_optional_scope(*finally_statements, prune);
                }
            },
        }
        proof {
            assert(nodes_of(self.log@) =~= head + rest.filter(p));
            assert(trace_stmt(*node, prune) == seq![Node::Stmt(*node)] + rest);
            assert(nodes_of(self.log@) =~= base + trace_stmt(*node, prune).filter(p));
        }
    }

    fn visit_class(&mut self, node: &'ast Class)
        decreases node,
    {
        let ghost base = nodes_of(self.log@);
        self.note(NodeRef::Class(node));
        self.visit_constructor(&node.constructor);
        self.record_methods(&node.methods);
        assert(nodes_of(self.log@) =~= base + trace_class(*node, self.prune_for_loops).filter(noted(self.only)));
    }

    fn visit_constructor(&mut self, node: &'ast Constructor)
        decreases node,
    {
        let ghost base = nodes_of(self.log@);
        self.note(NodeRef::Constructor(node));
        self.visit_scope(&node.statements);
        assert(nodes_of(self.log@) =~= base + trace_constructor(*node, self.prune_for_loops).filter(noted(self.only)));
    }

    fn visit_expr(&mut self, node: &'ast Expr)
        decreases node,
    {
        let ghost base = nodes_of(self.log@);
        let ghost prune = self.prune_for_loops;
        self.note(NodeRef::Expr(node));
        match &node.kind {
            ExprKind::New { obj_scope, arg_list, .. } => {
                if let Some(s) = obj_scope {
                    self.visit_expr(s);
                }
                self.visit_args(arg_list);
            },
            ExprKind::Literal(l) => {
                self.visit_literal(l);
            },
            ExprKind::Reference(r) => {
                self.visit_reference(r);
            },
            ExprKind::Call { function, arg_list } => {
                self.visit_expr(function);
                self.visit_args(arg_list);
            },
            ExprKind::Unary { exp, .. } => {
                self.visit_expr(exp);
            },
            ExprKind::Binary { left, right, .. } => {
                self.visit_expr(left);
                self.visit_expr(right);
            },
            ExprKind::ArrayLiteral { items, .. } => {
                self.record_exprs(items);
            },
            ExprKind::StructLiteral { fields, .. } => {
                self.record_field_values(fields);
            },
            ExprKind::MapLiteral { fields, .. } => {
                self.record_field_values(fields);
            },
            ExprKind::SetLiteral { items, .. } => {
                self.record_exprs(items);
            },
            ExprKind::FunctionClosure(d) => {
                self.visit_function_definition(d);
            },
        }
        assert(nodes_of(self.log@) =~= base + trace_expr(*node, prune).filter(noted(self.only)));
    }

    fn visit_literal(&mut self, node: &'ast Literal)
        decreases node,
    {
        let ghost base = nodes_of(self.log@);
        self.note(NodeRef::Literal(node));
        if let Literal::InterpolatedString(s) = node {
            self.record_parts(&s.parts);
        }
        assert(nodes_of(self.log@) =~= base + trace_literal(*node, self.prune_for_loops).filter(noted(self.only)));
    }

    fn visit_reference(&mut self, node: &'ast Reference)
        decreases node,
    {
        let ghost base = nodes_of(self.log@);
        self.note(NodeRef::Reference(node));
        if let Reference::NestedIdentifier { object, .. } = node {
            self.visit_expr(object);
        }
        assert(nodes_of(self.log@) =~= base + trace_reference(*node, self.prune_for_loops).filter(noted(self.only)));
    }

    fn visit_function_definition(&mut self, node: &'ast FunctionDefinition)
        decreases node,
    {
        let ghost base = nodes_of(self.log@);
        self.note(NodeRef::FunctionDefinition(node));
        self.visit_scope(&node.statements);
        assert(nodes_of(self.log@) =~= base + trace_function_definition(*node, self.prune_for_loops).filter(noted(self.only)));
    }

    fn visit_args(&mut self, node: &'ast ArgList)
        decreases node,
    {
        let ghost base = nodes_of(self.log@);
        self.note(NodeRef::Args(node));
        self.record_exprs(&node.pos_args);
        self.record_field_values(&node.named_args);
        assert(nodes_of(self.log@) =~= base + trace_args(*node, self.prune_for_loops).filter(noted(self.only)));
    }
}

} // verus!
