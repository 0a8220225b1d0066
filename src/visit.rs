use vstd::prelude::*;

use crate::ast::{
    ArgList, CatchBlock, Class, Constructor, ElifBlock, Expr, ExprKind, FunctionDefinition, InterpolatedStringPart,
    Literal, Reference, Scope, Stmt, StmtKind,
};

verus! {

/// A node of the tree together with its category: the unit of one call of a
/// visit point.
pub enum Node {
    Scope(Scope),
    Stmt(Stmt),
    Class(Class),
    Constructor(Constructor),
    Expr(Expr),
    Literal(Literal),
    Reference(Reference),
    FunctionDefinition(FunctionDefinition),
    Args(ArgList),
}

pub open spec fn expr_nodes(items: Seq<Expr>) -> Seq<Node> {
    items.map_values(|e: Expr| Node::Expr(e))
}

/// The value expressions of named entries, in stored order; the names are not nodes.
pub open spec fn field_value_nodes(fields: Seq<(String, Expr)>) -> Seq<Node> {
    fields.map_values(|f: (String, Expr)| Node::Expr(f.1))
}

pub open spec fn optional_scope_nodes(s: Option<Scope>) -> Seq<Node> {
    match s {
        Some(s) => seq![Node::Scope(s)],
        None => seq![],
    }
}

pub open spec fn catch_nodes(c: Option<CatchBlock>) -> Seq<Node> {
    match c {
        Some(c) => seq![Node::Scope(c.statements)],
        None => seq![],
    }
}

pub open spec fn object_scope_nodes(e: Option<Box<Expr>>) -> Seq<Node> {
    match e {
        Some(e) => seq![Node::Expr(*e)],
        None => seq![],
    }
}

/// For each `elif` clause in order: its condition, then its scope.
pub open spec fn elif_nodes(elifs: Seq<ElifBlock>) -> Seq<Node>
    decreases elifs.len(),
{
    if elifs.len() == 0 {
        seq![]
    } else {
        elif_nodes(elifs.drop_last()) + seq![
            Node::Expr(elifs.last().condition),
            Node::Scope(elifs.last().statements),
        ]
    }
}

/// The embedded expressions of an interpolated string, left to right.
pub open spec fn part_nodes(parts: Seq<InterpolatedStringPart>) -> Seq<Node>
    decreases parts.len(),
{
    if parts.len() == 0 {
        seq![]
    } else {
        part_nodes(parts.drop_last()) + (match parts.last() {
            InterpolatedStringPart::Expr(e) => seq![Node::Expr(e)],
            InterpolatedStringPart::Static(_) => seq![],
        })
    }
}

/// The children that the default traversal of a scope visits, in order.
pub open spec fn scope_children(node: Scope) -> Seq<Node> {
    node.statements@.map_values(|s: Stmt| Node::Stmt(s))
}

/// The children that the default traversal of a statement visits, in order.
pub open spec fn stmt_children(node: Stmt) -> Seq<Node> {
    match node.kind {
        StmtKind::Bring { .. } => seq![],
        StmtKind::VariableDef { initial_value, .. } => seq![Node::Expr(initial_value)],
        StmtKind::ForLoop { iterable, statements, .. } => seq![
            Node::Expr(iterable),
            Node::Scope(statements),
        ],
        StmtKind::While { condition, statements } => seq![
            Node::Expr(condition),
            Node::Scope(statements),
        ],
        StmtKind::If { condition, statements, elif_statements, else_statements } => seq![
            Node::Expr(condition),
            Node::Scope(statements),
        ] + elif_nodes(elif_statements@) + optional_scope_nodes(else_statements),
        StmtKind::Expression(e) => seq![Node::Expr(e)],
        StmtKind::Assignment { variable, value } => seq![
            Node::Reference(variable),
            Node::Expr(value),
        ],
        StmtKind::Return(e) => match e {
            Some(e) => seq![Node::Expr(e)],
            None => seq![],
        },
        StmtKind::Scope(s) => seq![Node::Scope(s)],
        StmtKind::Class(c) => seq![Node::Class(c)],
        StmtKind::Struct { .. } => seq![],
        StmtKind::Enum { .. } => seq![],
        StmtKind::TryCatch { try_statements, catch_block, finally_statements } => seq![
            Node::Scope(try_statements),
        ] + catch_nodes(catch_block) + optional_scope_nodes(finally_statements),
    }
}

/// The children that the default traversal of a class visits, in order.
pub open spec fn class_children(node: Class) -> Seq<Node> {
    seq![Node::Constructor(node.constructor)] + node.methods@.map_values(
        |m: (String, FunctionDefinition)| Node::FunctionDefinition(m.1),
    )
}

pub open spec fn constructor_children(node: Constructor) -> Seq<Node> {
    seq![Node::Scope(node.statements)]
}

/// The children that the default traversal of an expression visits, in order.
pub open spec fn expr_children(node: Expr) -> Seq<Node> {
    match node.kind {
        ExprKind::New { obj_scope, arg_list, .. } => object_scope_nodes(obj_scope) + seq![
            Node::Args(arg_list),
        ],
        ExprKind::Literal(l) => seq![Node::Literal(l)],
        ExprKind::Reference(r) => seq![Node::Reference(r)],
        ExprKind::Call { function, arg_list } => seq![Node::Expr(*function), Node::Args(arg_list)],
        ExprKind::Unary { exp, .. } => seq![Node::Expr(*exp)],
        ExprKind::Binary { left, right, .. } => seq![Node::Expr(*left), Node::Expr(*right)],
        ExprKind::ArrayLiteral { items, .. } => expr_nodes(items@),
        ExprKind::StructLiteral { fields, .. } => field_value_nodes(fields@),
        ExprKind::MapLiteral { fields, .. } => field_value_nodes(fields@),
        ExprKind::SetLiteral { items, .. } => expr_nodes(items@),
        ExprKind::FunctionClosure(d) => seq![Node::FunctionDefinition(d)],
    }
}

pub open spec fn literal_children(node: Literal) -> Seq<Node> {
    match node {
        Literal::InterpolatedString(s) => part_nodes(s.parts@),
        _ => seq![],
    }
}

pub open spec fn reference_children(node: Reference) -> Seq<Node> {
    match node {
        Reference::NestedIdentifier { object, .. } => seq![Node::Expr(*object)],
        Reference::Identifier(_) => seq![],
    }
}

pub open spec fn function_definition_children(node: FunctionDefinition) -> Seq<Node> {
    seq![Node::Scope(node.statements)]
}

/// Positional arguments in order, then the values of the named arguments in stored order.
pub open spec fn args_children(node: ArgList) -> Seq<Node> {
    expr_nodes(node.pos_args@) + field_value_nodes(node.named_args@)
}

/// A visitor: one visit point per node category.
///
/// Every point is written by the implementation. One that continues into the
/// children calls the matching default traversal of this module
/// (`visit_expr(self, node)` inside `visit_expr`); one that does not prunes the
/// subtree. The effect of each point is a relation between the visitor before
/// and after the call, which the implementation may define and then proves; by
/// default it states nothing.
pub trait Visit<'ast>: Sized {
    /// `post` may result from visiting scope `node` in state `pre`.
    open spec fn scope_visited(pre: Self, node: Scope, post: Self) -> bool {
        true
    }

    open spec fn stmt_visited(pre: Self, node: Stmt, post: Self) -> bool {
        true
    }

    open spec fn class_visited(pre: Self, node: Class, post: Self) -> bool {
        true
    }

    open spec fn constructor_visited(pre: Self, node: Constructor, post: Self) -> bool {
        true
    }

    open spec fn expr_visited(pre: Self, node: Expr, post: Self) -> bool {
        true
    }

    open spec fn literal_visited(pre: Self, node: Literal, post: Self) -> bool {
        true
    }

    open spec fn reference_visited(pre: Self, node: Reference, post: Self) -> bool {
        true
    }

    open spec fn function_definition_visited(pre: Self, node: FunctionDefinition, post: Self) -> bool {
        true
    }

    open spec fn args_visited(pre: Self, node: ArgList, post: Self) -> bool {
        true
    }

    fn visit_scope(&mut self, node: &'ast Scope)
        ensures
            Self::scope_visited(*old(self), *node, *final(self)),
    ;

    fn visit_stmt(&mut self, node: &'ast Stmt)
        ensures
            Self::stmt_visited(*old(self), *node, *final(self)),
    ;

    fn visit_class(&mut self, node: &'ast Class)
        ensures
            Self::class_visited(*old(self), *node, *final(self)),
    ;

    fn visit_constructor(&mut self, node: &'ast Constructor)
        ensures
            Self::constructor_visited(*old(self), *node, *final(self)),
    ;

    fn visit_expr(&mut self, node: &'ast Expr)
        ensures
            Self::expr_visited(*old(self), *node, *final(self)),
    ;

    fn visit_literal(&mut self, node: &'ast Literal)
        ensures
            Self::literal_visited(*old(self), *node, *final(self)),
    ;

    fn visit_reference(&mut self, node: &'ast Reference)
        ensures
            Self::reference_visited(*old(self), *node, *final(self)),
    ;

    fn visit_function_definition(&mut self, node: &'ast FunctionDefinition)
        ensures
            Self::function_definition_visited(*old(self), *node, *final(self)),
    ;

    fn visit_args(&mut self, node: &'ast ArgList)
        ensures
            Self::args_visited(*old(self), *node, *final(self)),
    ;
}

/// `post` may result from calling, in state `pre`, the visit point of `n`'s category on `n`.
pub open spec fn visited<'ast, V: Visit<'ast>>(pre: V, n: Node, post: V) -> bool {
    match n {
        Node::Scope(x) => V::scope_visited(pre, x, post),
        Node::Stmt(x) => V::stmt_visited(pre, x, post),
        Node::Class(x) => V::class_visited(pre, x, post),
        Node::Constructor(x) => V::constructor_visited(pre, x, post),
        Node::Expr(x) => V::expr_visited(pre, x, post),
        Node::Literal(x) => V::literal_visited(pre, x, post),
        Node::Reference(x) => V::reference_visited(pre, x, post),
        Node::FunctionDefinition(x) => V::function_definition_visited(pre, x, post),
        Node::Args(x) => V::args_visited(pre, x, post),
    }
}

/// `post` may result from calling, starting in state `pre`, the visit points of
/// the nodes `ns`, one after the other, in order, and nothing else.
pub open spec fn visited_in_order<'ast, V: Visit<'ast>>(pre: V, ns: Seq<Node>, post: V) -> bool
    decreases ns.len(),
{
    if ns.len() == 0 {
        post == pre
    } else {
        exists|mid: V|
            visited_in_order(pre, ns.drop_last(), mid) && #[trigger] visited(mid, ns.last(), post)
    }
}

pub proof fn lemma_visited_none<'ast, V: Visit<'ast>>(v: V)
    ensures
        visited_in_order(v, seq![], v),
{
}

pub proof fn lemma_visited_push<'ast, V: Visit<'ast>>(pre: V, ns: Seq<Node>, mid: V, n: Node, post: V)
    requires
        visited_in_order(pre, ns, mid),
        visited(mid, n, post),
    ensures
        visited_in_order(pre, ns.push(n), post),
{
    assert(ns.push(n).drop_last() =~= ns);
    assert(ns.push(n).last() == n);
    assert(visited_in_order(pre, ns.push(n).drop_last(), mid));
    assert(visited(mid, ns.push(n).last(), post));
}

pub proof fn lemma_visited_one<'ast, V: Visit<'ast>>(pre: V, n: Node, post: V)
    requires
        visited(pre, n, post),
    ensures
        visited_in_order(pre, seq![n], post),
{
    lemma_visited_push(pre, seq![], pre, n, post);
    assert(seq![].push(n) =~= seq![n]);
}

/// Visiting `a` and then `b` is visiting `a + b`.
pub proof fn lemma_visited_concat<'ast, V: Visit<'ast>>(pre: V, a: Seq<Node>, mid: V, b: Seq<Node>, post: V)
    requires
        visited_in_order(pre, a, mid),
        visited_in_order(mid, b, post),
    ensures
        visited_in_order(pre, a + b, post),
    decreases b.len(),
{
    if b.len() == 0 {
        assert(a + b =~= a);
    } else {
        assert(visited_in_order(mid, b, post));
        let m = choose|m: V| visited_in_order(mid, b.drop_last(), m) && #[trigger] visited(m, b.last(), post);
        lemma_visited_concat(pre, a, mid, b.drop_last(), m);
        assert((a + b).drop_last() =~= a + b.drop_last());
        lemma_visited_push(pre, a + b.drop_last(), m, b.last(), post);
        assert((a + b.drop_last()).push(b.last()) =~= a + b);
    }
}

pub proof fn lemma_visited_two<'ast, V: Visit<'ast>>(pre: V, a: Node, mid: V, b: Node, post: V)
    requires
        visited(pre, a, mid),
        visited(mid, b, post),
    ensures
        visited_in_order(pre, seq![a, b], post),
{
    lemma_visited_one(pre, a, mid);
    lemma_visited_push(pre, seq![a], mid, b, post);
    assert(seq![a].push(b) =~= seq![a, b]);
}

/// A for-loop whose body is empty: its iterable and its body scope are the
/// children, and the body has no statement to visit.
pub proof fn lemma_for_loop_empty_body(iterator: String, iterable: Expr, statements: Scope)
    requires
        statements.statements@.len() == 0,
    ensures
        stmt_children(Stmt { kind: StmtKind::ForLoop { iterator, iterable, statements } }) == seq![
            Node::Expr(iterable),
            Node::Scope(statements),
        ],
        scope_children(statements).len() == 0,
{
}

/// An `if` with neither `elif` nor `else`: the condition, then the "then" scope.
pub proof fn lemma_if_without_alternatives(condition: Expr, statements: Scope, elif_statements: Vec<ElifBlock>)
    requires
        elif_statements@.len() == 0,
    ensures
        stmt_children(
            Stmt {
                kind: StmtKind::If { condition, statements, elif_statements, else_statements: None },
            },
        ) == seq![Node::Expr(condition), Node::Scope(statements)],
{
    assert(elif_nodes(elif_statements@) =~= seq![]);
    assert(seq![Node::Expr(condition), Node::Scope(statements)] + elif_nodes(elif_statements@)
        + optional_scope_nodes(None) =~= seq![Node::Expr(condition), Node::Scope(statements)]);
}

/// A `try` with neither `catch` nor `finally`: the try scope alone.
pub proof fn lemma_try_without_handlers(try_statements: Scope)
    ensures
        stmt_children(
            Stmt {
                kind: StmtKind::TryCatch { try_statements, catch_block: None, finally_statements: None },
            },
        ) == seq![Node::Scope(try_statements)],
{
    assert(seq![Node::Scope(try_statements)] + catch_nodes(None) + optional_scope_nodes(None)
        =~= seq![Node::Scope(try_statements)]);
}

fn visit_expr_seq<'ast, V: Visit<'ast>>(v: &mut V, items: &'ast Vec<Expr>)
    ensures
        visited_in_order(*old(v), expr_nodes(items@), *final(v)),
{
    let ghost pre = *v;
    let mut i: usize = 0;
    while i < items.len()
        invariant
            i <= items.len(),
            visited_in_order(pre, expr_nodes(items@.take(i as int)), *v),
        decreases items.len() - i,
    {
        let ghost mid = *v;
        v.visit_expr(&items[i]);
        proof {
            lemma_visited_push(pre, expr_nodes(items@.take(i as int)), mid, Node::Expr(items@[i as int]), *v);
            assert(expr_nodes(items@.take(i + 1)) =~= expr_nodes(items@.take(i as int)).push(
                Node::Expr(items@[i as int]),
            ));
        }
        i += 1;
    }
    assert(items@.take(i as int) =~= items@);
}

fn visit_field_values<'ast, V: Visit<'ast>>(v: &mut V, fields: &'ast Vec<(String, Expr)>)
    ensures
        visited_in_order(*old(v), field_value_nodes(fields@), *final(v)),
{
    let ghost pre = *v;
    let mut i: usize = 0;
    while i < fields.len()
        invariant
            i <= fields.len(),
            visited_in_order(pre, field_value_nodes(fields@.take(i as int)), *v),
        decreases fields.len() - i,
    {
        let ghost mid = *v;
        v.visit_expr(&fields[i].1);
        proof {
            lemma_visited_push(
                pre,
                field_value_nodes(fields@.take(i as int)),
                mid,
                Node::Expr(fields@[i as int].1),
                *v,
            );
            assert(field_value_nodes(fields@.take(i + 1)) =~= field_value_nodes(
                fields@.take(i as int),
            ).push(Node::Expr(fields@[i as int].1)));
        }
        i += 1;
    }
    assert(fields@.take(i as int) =~= fields@);
}

/// Visits every statement of the scope, in order.
pub fn visit_scope<'ast, V: Visit<'ast>>(v: &mut V, node: &'ast Scope)
    ensures
        visited_in_order(*old(v), scope_children(*node), *final(v)),
{
    let ghost pre = *v;
    let ghost stmts = node.statements@;
    let mut i: usize = 0;
    while i < node.statements.len()
        invariant
            i <= stmts.len(),
            stmts == node.statements@,
            visited_in_order(pre, stmts.take(i as int).map_values(|s: Stmt| Node::Stmt(s)), *v),
        decreases stmts.len() - i,
    {
        let ghost mid = *v;
        v.visit_stmt(&node.statements[i]);
        proof {
            let done = stmts.take(i as int).map_values(|s: Stmt| Node::Stmt(s));
            lemma_visited_push(pre, done, mid, Node::Stmt(stmts[i as int]), *v);
            assert(stmts.take(i + 1).map_values(|s: Stmt| Node::Stmt(s)) =~= done.push(
                Node::Stmt(stmts[i as int]),
            ));
        }
        i += 1;
    }
    assert(stmts.take(i as int) =~= stmts);
}

fn visit_elifs<'ast, V: Visit<'ast>>(v: &mut V, elifs: &'ast Vec<ElifBlock>)
    ensures
        visited_in_order(*old(v), elif_nodes(elifs@), *final(v)),
{
    let ghost pre = *v;
    let mut i: usize = 0;
    while i < elifs.len()
        invariant
            i <= elifs.len(),
            visited_in_order(pre, elif_nodes(elifs@.take(i as int)), *v),
        decreases elifs.len() - i,
    {
        let ghost m0 = *v;
        let elif = &elifs[i];
        v.visit_expr(&elif.condition);
        let ghost m1 = *v;
        v.visit_scope(&elif.statements);
        proof {
            let done = elif_nodes(elifs@.take(i as int));
            let step = seq![Node::Expr(elif.condition), Node::Scope(elif.statements)];
            lemma_visited_two(m0, Node::Expr(elif.condition), m1, Node::Scope(elif.statements), *v);
            lemma_visited_concat(pre, done, m0, step, *v);
            assert(elifs@.take(i + 1).drop_last() =~= elifs@.take(i as int));
            assert(elif_nodes(elifs@.take(i + 1)) == done + step);
        }
        i += 1;
    }
    assert(elifs@.take(i as int) =~= elifs@);
}

/// Visits the children of a statement in the order its kind fixes: see `stmt_children`.
pub fn visit_stmt<'ast, V: Visit<'ast>>(v: &mut V, node: &'ast Stmt)
    ensures
        visited_in_order(*old(v), stmt_children(*node), *final(v)),
{
    let ghost pre = *v;
    proof {
        lemma_visited_none(pre);
    }
    match &node.kind {
        StmtKind::Bring { .. } => {},
        StmtKind::VariableDef { initial_value, .. } => {
            v.visit_expr(initial_value);
            proof {
                lemma_visited_one(pre, Node::Expr(*initial_value), *v);
            }
        },
        StmtKind::ForLoop { iterable, statements, .. } => {
            v.visit_expr(iterable);
            let ghost mid = *v;
            v.visit_scope(statements);
            proof {
                lemma_visited_two(pre, Node::Expr(*iterable), mid, Node::Scope(*statements), *v);
            }
        },
        StmtKind::While { condition, statements } => {
            v.visit_expr(condition);
            let ghost mid = *v;
            v.visit_scope(statements);
            proof {
                lemma_visited_two(pre, Node::Expr(*condition), mid, Node::Scope(*statements), *v);
            }
        },
        StmtKind::If { condition, statements, elif_statements, else_statements } => {
            v.visit_expr(condition);
            let ghost m1 = *v;
            v.visit_scope(statements);
            let ghost m2 = *v;
            let ghost head = seq![Node::Expr(*condition), Node::Scope(*statements)];
            proof {
                lemma_visited_two(pre, Node::Expr(*condition), m1, Node::Scope(*statements), m2);
            }
            visit_elifs(v, elif_statements);
            let ghost m3 = *v;
            proof {
                lemma_visited_concat(pre, head, m2, elif_nodes(elif_statements@), m3);
            }
            match else_statements {
                Some(s) => {
                    v.visit_scope(s);
                    proof {
                        lemma_visited_one(m3, Node::Scope(*s), *v);
                    }
                },
                None => {
                    proof {
                        lemma_visited_none(m3);
                    }
                },
            }
            proof {
                lemma_visited_concat(
                    pre,
                    head + elif_nodes(elif_statements@),
                    m3,
                    optional_scope_nodes(*else_statements),
                    *v,
                );
            }
        },
        StmtKind::Expression(e) => {
            v.visit_expr(e);
            proof {
                lemma_visited_one(pre, Node::Expr(*e), *v);
            }
        },
        StmtKind::Assignment { variable, value } => {
            v.visit_reference(variable);
            let ghost mid = *v;
            v.visit_expr(value);
            proof {
                lemma_visited_two(pre, Node::Reference(*variable), mid, Node::Expr(*value), *v);
            }
        },
        StmtKind::Return(e) => {
            if let Some(e) = e {
                v.visit_expr(e);
                proof {
                    lemma_visited_one(pre, Node::Expr(*e), *v);
                }
            }
        },
        StmtKind::Scope(s) => {
            v.visit_scope(s);
            proof {
                lemma_visited_one(pre, Node::Scope(*s), *v);
            }
        },
        StmtKind::Class(c) => {
            v.visit_class(c);
            proof {
                lemma_visited_one(pre, Node::Class(*c), *v);
            }
        },
        StmtKind::Struct { .. } => {},
        StmtKind::Enum { .. } => {},
        StmtKind::TryCatch { try_statements, catch_block, finally_statements } => {
            v.visit_scope(try_statements);
            let ghost m1 = *v;
            proof {
                lemma_visited_one(pre, Node::Scope(*try_statements), m1);
            }
            if let Some(c) = catch_block {
                v.visit_scope(&c.statements);
                proof {
                    lemma_visited_one(m1, Node::Scope(c.statements), *v);
                }
            } else {
                proof {
                    lemma_visited_none(m1);
                }
            }
            let ghost m2 = *v;
            proof {
                lemma_visited_concat(pre, seq![Node::Scope(*try_statements)], m1, catch_nodes(*catch_block), m2);
            }
            if let Some(s) = finally_statements {
                v.visit_scope(s);
                proof {
                    lemma_visited_one(m2, Node::Scope(*s), *v);
                }
            } else {
                proof {
                    lemma_visited_none(m2);
                }
            }
            proof {
                lemma_visited_concat(
                    pre,
                    seq![Node::Scope(*try_statements)] + catch_nodes(*catch_block),
                    m2,
                    optional_scope_nodes(*finally_statements),
                    *v,
                );
            }
        },
    }
}

/// Visits the constructor, then each method's definition in stored order.
pub fn visit_class<'ast, V: Visit<'ast>>(v: &mut V, node: &'ast Class)
    ensures
        visited_in_order(*old(v), class_children(*node), *final(v)),
{
    let ghost pre = *v;
    v.visit_constructor(&node.constructor);
    let ghost head = seq![Node::Constructor(node.constructor)];
    proof {
        lemma_visited_one(pre, Node::Constructor(node.constructor), *v);
    }
    let ghost methods = node.methods@;
    let mut i: usize = 0;
    while i < node.methods.len()
        invariant
            i <= methods.len(),
            methods == node.methods@,
            visited_in_order(
                pre,
                head + methods.take(i as int).map_values(
                    |m: (String, FunctionDefinition)| Node::FunctionDefinition(m.1),
                ),
                *v,
            ),
        decreases methods.len() - i,
    {
        let ghost mid = *v;
        v.visit_function_definition(&node.methods[i].1);
        proof {
            let done = head + methods.take(i as int).map_values(
                |m: (String, FunctionDefinition)| Node::FunctionDefinition(m.1),
            );
            lemma_visited_push(pre, done, mid, Node::FunctionDefinition(methods[i as int].1), *v);
            assert(head + methods.take(i + 1).map_values(
                |m: (String, FunctionDefinition)| Node::FunctionDefinition(m.1),
            ) =~= done.push(Node::FunctionDefinition(methods[i as int].1)));
        }
        i += 1;
    }
    assert(methods.take(i as int) =~= methods);
}

/// Visits the constructor's body.
pub fn visit_constructor<'ast, V: Visit<'ast>>(v: &mut V, node: &'ast Constructor)
    ensures
        visited_in_order(*old(v), constructor_children(*node), *final(v)),
{
    let ghost pre = *v;
    v.visit_scope(&node.statements);
    proof {
        lemma_visited_one(pre, Node::Scope(node.statements), *v);
    }
}

/// Visits the children of an expression in the order its kind fixes: see `expr_children`.
pub fn visit_expr<'ast, V: Visit<'ast>>(v: &mut V, node: &'ast Expr)
    ensures
        visited_in_order(*old(v), expr_children(*node), *final(v)),
{
    let ghost pre = *v;
    match &node.kind {
        ExprKind::New { obj_scope, arg_list, .. } => {
            if let Some(s) = obj_scope {
                v.visit_expr(s);
                proof {
                    lemma_visited_one(pre, Node::Expr(**s), *v);
                }
            } else {
                proof {
                    lemma_visited_none(pre);
                }
            }
            let ghost mid = *v;
            v.visit_args(arg_list);
            proof {
                lemma_visited_one(mid, Node::Args(*arg_list), *v);
                lemma_visited_concat(pre, object_scope_nodes(*obj_scope), mid, seq![Node::Args(*arg_list)], *v);
            }
        },
        ExprKind::Literal(l) => {
            v.visit_literal(l);
            proof {
                lemma_visited_one(pre, Node::Literal(*l), *v);
            }
        },
        ExprKind::Reference(r) => {
            v.visit_reference(r);
            proof {
                lemma_visited_one(pre, Node::Reference(*r), *v);
            }
        },
        ExprKind::Call { function, arg_list } => {
            v.visit_expr(function);
            let ghost mid = *v;
            v.visit_args(arg_list);
            proof {
                lemma_visited_two(pre, Node::Expr(**function), mid, Node::Args(*arg_list), *v);
            }
        },
        ExprKind::Unary { exp, .. } => {
            v.visit_expr(exp);
            proof {
                lemma_visited_one(pre, Node::Expr(**exp), *v);
            }
        },
        ExprKind::Binary { left, right, .. } => {
            v.visit_expr(left);
            let ghost mid = *v;
            v.visit_expr(right);
            proof {
                lemma_visited_two(pre, Node::Expr(**left), mid, Node::Expr(**right), *v);
            }
        },
        ExprKind::ArrayLiteral { items, .. } => {
            visit_expr_seq(v, items);
        },
        ExprKind::StructLiteral { fields, .. } => {
            visit_field_values(v, fields);
        },
        ExprKind::MapLiteral { fields, .. } => {
            visit_field_values(v, fields);
        },
        ExprKind::SetLiteral { items, .. } => {
            visit_expr_seq(v, items);
        },
        ExprKind::FunctionClosure(d) => {
            v.visit_function_definition(d);
            proof {
                lemma_visited_one(pre, Node::FunctionDefinition(*d), *v);
            }
        },
    }
}

/// Visits the embedded expressions of an interpolated string, left to right;
/// other literals have no children.
pub fn visit_literal<'ast, V: Visit<'ast>>(v: &mut V, node: &'ast Literal)
    ensures
        visited_in_order(*old(v), literal_children(*node), *final(v)),
{
    let ghost pre = *v;
    proof {
        lemma_visited_none(pre);
    }
    match node {
        Literal::InterpolatedString(interpolated) => {
            let parts = &interpolated.parts;
            let mut i: usize = 0;
            while i < parts.len()
                invariant
                    i <= parts.len(),
                    visited_in_order(pre, part_nodes(parts@.take(i as int)), *v),
                decreases parts.len() - i,
            {
                let ghost mid = *v;
                let ghost done = part_nodes(parts@.take(i as int));
                proof {
                    assert(parts@.take(i + 1).drop_last() =~= parts@.take(i as int));
                }
                if let InterpolatedStringPart::Expr(e) = &parts[i] {
                    v.visit_expr(e);
                    proof {
                        lemma_visited_push(pre, done, mid, Node::Expr(*e), *v);
                        assert(part_nodes(parts@.take(i + 1)) =~= done.push(Node::Expr(*e)));
                    }
                } else {
                    assert(part_nodes(parts@.take(i + 1)) =~= done);
                }
                i += 1;
            }
            assert(parts@.take(i as int) =~= parts@);
        },
        Literal::Boolean(_) => {},
        Literal::Number(_) => {},
        Literal::Duration(_) => {},
        Literal::String(_) => {},
    }
}

/// Visits the owning object of a nested identifier; a plain identifier has no children.
pub fn visit_reference<'ast, V: Visit<'ast>>(v: &mut V, node: &'ast Reference)
    ensures
        visited_in_order(*old(v), reference_children(*node), *final(v)),
{
    let ghost pre = *v;
    match node {
        Reference::NestedIdentifier { object, .. } => {
            v.visit_expr(object);
            proof {
                lemma_visited_one(pre, Node::Expr(**object), *v);
            }
        },
        Reference::Identifier(_) => {
            proof {
                lemma_visited_none(pre);
            }
        },
    }
}

/// Visits the function's body.
pub fn visit_function_definition<'ast, V: Visit<'ast>>(v: &mut V, node: &'ast FunctionDefinition)
    ensures
        visited_in_order(*old(v), function_definition_children(*node), *final(v)),
{
    let ghost pre = *v;
    v.visit_scope(&node.statements);
    proof {
        lemma_visited_one(pre, Node::Scope(node.statements), *v);
    }
}

/// Visits the positional arguments in order, then the named arguments' values in stored order.
pub fn visit_args<'ast, V: Visit<'ast>>(v: &mut V, node: &'ast ArgList)
    ensures
        visited_in_order(*old(v), args_children(*node), *final(v)),
{
    let ghost pre = *v;
    visit_expr_seq(v, &node.pos_args);
    let ghost mid = *v;
    visit_field_values(v, &node.named_args);
    proof {
        lemma_visited_concat(pre, expr_nodes(node.pos_args@), mid, field_value_nodes(node.named_args@), *v);
    }
}

} // verus!
