use vstd::prelude::*;

use crate::ast::{ElifBlock, Expr, FunctionDefinition, InterpolatedStringPart, Literal, Stmt, StmtKind, ExprKind};
use crate::recorder::{
    trace_args, trace_class, trace_constructor, trace_elifs, trace_expr, trace_exprs, trace_field_values,
    trace_function_definition, trace_literal, trace_methods, trace_parts, trace_reference, trace_scope,
    trace_stmt, trace_stmts,
};
use crate::visit::{
    args_children, catch_nodes, class_children, constructor_children, elif_nodes, expr_children, expr_nodes,
    field_value_nodes, function_definition_children, literal_children, object_scope_nodes,
    optional_scope_nodes, part_nodes, reference_children, scope_children, stmt_children, Node,
};

verus! {

/// The children that the default traversal of `n`'s category visits, in order.
pub open spec fn children(n: Node) -> Seq<Node> {
    match n {
        Node::Scope(x) => scope_children(x),
        Node::Stmt(x) => stmt_children(x),
        Node::Class(x) => class_children(x),
        Node::Constructor(x) => constructor_children(x),
        Node::Expr(x) => expr_children(x),
        Node::Literal(x) => literal_children(x),
        Node::Reference(x) => reference_children(x),
        Node::FunctionDefinition(x) => function_definition_children(x),
        Node::Args(x) => args_children(x),
    }
}

/// The full trace below node `n`, `n` included.
pub open spec fn trace_node(n: Node) -> Seq<Node> {
    match n {
        Node::Scope(x) => trace_scope(x, false),
        Node::Stmt(x) => trace_stmt(x, false),
        Node::Class(x) => trace_class(x, false),
        Node::Constructor(x) => trace_constructor(x, false),
        Node::Expr(x) => trace_expr(x, false),
        Node::Literal(x) => trace_literal(x, false),
        Node::Reference(x) => trace_reference(x, false),
        Node::FunctionDefinition(x) => trace_function_definition(x, false),
        Node::Args(x) => trace_args(x, false),
    }
}

/// The full traces of the nodes `ns`, one after the other.
pub open spec fn traces(ns: Seq<Node>) -> Seq<Node>
    decreases ns.len(),
{
    if ns.len() == 0 {
        seq![]
    } else {
        traces(ns.drop_last()) + trace_node(ns.last())
    }
}

proof fn lemma_traces_concat(a: Seq<Node>, b: Seq<Node>)
    ensures
        traces(a + b) == traces(a) + traces(b),
    decreases b.len(),
{
    if b.len() == 0 {
        assert(a + b =~= a);
        assert(traces(a) + traces(b) =~= traces(a));
    } else {
        lemma_traces_concat(a, b.drop_last());
        assert((a + b).drop_last() =~= a + b.drop_last());
        assert((a + b).last() == b.last());
        assert(traces(a + b) =~= traces(a) + traces(b));
    }
}

proof fn lemma_traces_one(n: Node)
    ensures
        traces(seq![n]) == trace_node(n),
{
    assert(seq![n].drop_last() =~= Seq::<Node>::empty());
    assert(traces(seq![n].drop_last()) =~= Seq::<Node>::empty());
    assert(traces(seq![n]) =~= trace_node(n));
}

proof fn lemma_traces_two(a: Node, b: Node)
    ensures
        traces(seq![a, b]) == trace_node(a) + trace_node(b),
{
    lemma_traces_one(a);
    lemma_traces_one(b);
    lemma_traces_concat(seq![a], seq![b]);
    assert(seq![a] + seq![b] =~= seq![a, b]);
}

proof fn lemma_traces_stmts(ss: Seq<Stmt>)
    ensures
        traces(ss.map_values(|s: Stmt| Node::Stmt(s))) == trace_stmts(ss, false),
    decreases ss.len(),
{
    if ss.len() > 0 {
        lemma_traces_stmts(ss.drop_last());
        assert(ss.map_values(|s: Stmt| Node::Stmt(s)).drop_last() =~= ss.drop_last().map_values(
            |s: Stmt| Node::Stmt(s),
        ));
    } else {
        assert(ss.map_values(|s: Stmt| Node::Stmt(s)) =~= Seq::<Node>::empty());
    }
}

proof fn lemma_traces_exprs(es: Seq<Expr>)
    ensures
        traces(expr_nodes(es)) == trace_exprs(es, false),
    decreases es.len(),
{
    if es.len() > 0 {
        lemma_traces_exprs(es.drop_last());
        assert(expr_nodes(es).drop_last() =~= expr_nodes(es.drop_last()));
    } else {
        assert(expr_nodes(es) =~= Seq::<Node>::empty());
    }
}

proof fn lemma_traces_field_values(fs: Seq<(String, Expr)>)
    ensures
        traces(field_value_nodes(fs)) == trace_field_values(fs, false),
    decreases fs.len(),
{
    if fs.len() > 0 {
        lemma_traces_field_values(fs.drop_last());
        assert(field_value_nodes(fs).drop_last() =~= field_value_nodes(fs.drop_last()));
    } else {
        assert(field_value_nodes(fs) =~= Seq::<Node>::empty());
    }
}

proof fn lemma_traces_methods(ms: Seq<(String, FunctionDefinition)>)
    ensures
        traces(ms.map_values(|m: (String, FunctionDefinition)| Node::FunctionDefinition(m.1)))
            == trace_methods(ms, false),
    decreases ms.len(),
{
    if ms.len() > 0 {
        lemma_traces_methods(ms.drop_last());
        assert(ms.map_values(|m: (String, FunctionDefinition)| Node::FunctionDefinition(m.1)).drop_last()
            =~= ms.drop_last().map_values(
            |m: (String, FunctionDefinition)| Node::FunctionDefinition(m.1),
        ));
    } else {
        assert(ms.map_values(|m: (String, FunctionDefinition)| Node::FunctionDefinition(m.1))
            =~= Seq::<Node>::empty());
    }
}

proof fn lemma_traces_elifs(elifs: Seq<ElifBlock>)
    ensures
        traces(elif_nodes(elifs)) == trace_elifs(elifs, false),
    decreases elifs.len(),
{
    if elifs.len() > 0 {
        let last = elifs.last();
        lemma_traces_elifs(elifs.drop_last());
        lemma_traces_two(Node::Expr(last.condition), Node::Scope(last.statements));
        lemma_traces_concat(
            elif_nodes(elifs.drop_last()),
            seq![Node::Expr(last.condition), Node::Scope(last.statements)],
        );
    }
}

proof fn lemma_traces_parts(parts: Seq<InterpolatedStringPart>)
    ensures
        traces(part_nodes(parts)) == trace_parts(parts, false),
    decreases parts.len(),
{
    if parts.len() > 0 {
        lemma_traces_parts(parts.drop_last());
        match parts.last() {
            InterpolatedStringPart::Expr(e) => {
                lemma_traces_one(Node::Expr(e));
                lemma_traces_concat(part_nodes(parts.drop_last()), seq![Node::Expr(e)]);
            },
            InterpolatedStringPart::Static(_) => {
                assert(part_nodes(parts) =~= part_nodes(parts.drop_last()));
                assert(trace_parts(parts, false) =~= trace_parts(parts.drop_last(), false));
            },
        }
    }
}

proof fn lemma_traces_optional_scope(s: Option<crate::ast::Scope>)
    ensures
        traces(optional_scope_nodes(s)) == match s {
            Some(s) => trace_scope(s, false),
            None => seq![],
        },
{
    if let Some(s) = s {
        lemma_traces_one(Node::Scope(s));
    }
}

/// A full traversal is the depth-first expansion of the child order that the
/// default traversal functions follow: the trace below any node is the node
/// itself, then the traces below its children, in the order of `children`.
pub proof fn lemma_trace_follows_default_order(n: Node)
    ensures
        trace_node(n) == seq![n] + traces(children(n)),
{
    match n {
        Node::Scope(x) => {
            lemma_traces_stmts(x.statements@);
        },
        Node::Stmt(x) => {
            lemma_stmt_follows_default_order(x);
        },
        Node::Class(x) => {
            lemma_traces_one(Node::Constructor(x.constructor));
            lemma_traces_methods(x.methods@);
            lemma_traces_concat(
                seq![Node::Constructor(x.constructor)],
                x.methods@.map_values(|m: (String, FunctionDefinition)| Node::FunctionDefinition(m.1)),
            );
        },
        Node::Constructor(x) => {
            lemma_traces_one(Node::Scope(x.statements));
        },
        Node::Expr(x) => {
            lemma_expr_follows_default_order(x);
        },
        Node::Literal(x) => {
            if let Literal::InterpolatedString(s) = x {
                lemma_traces_parts(s.parts@);
            }
        },
        Node::Reference(x) => {
            if let crate::ast::Reference::NestedIdentifier { object, .. } = x {
                lemma_traces_one(Node::Expr(*object));
            }
        },
        Node::FunctionDefinition(x) => {
            lemma_traces_one(Node::Scope(x.statements));
        },
        Node::Args(x) => {
            lemma_traces_exprs(x.pos_args@);
            lemma_traces_field_values(x.named_args@);
            lemma_traces_concat(expr_nodes(x.pos_args@), field_value_nodes(x.named_args@));
        },
    }
    assert(trace_node(n) =~= seq![n] + traces(children(n)));
}

proof fn lemma_stmt_follows_default_order(s: Stmt)
    ensures
        trace_stmt(s, false) == seq![Node::Stmt(s)] + traces(stmt_children(s)),
{
    assert(traces(Seq::<Node>::empty()) =~= Seq::<Node>::empty());
    match s.kind {
        StmtKind::VariableDef { initial_value, .. } => lemma_traces_one(Node::Expr(initial_value)),
        StmtKind::ForLoop { iterable, statements, .. } => lemma_traces_two(
            Node::Expr(iterable),
            Node::Scope(statements),
        ),
        StmtKind::While { condition, statements } => lemma_traces_two(
            Node::Expr(condition),
            Node::Scope(statements),
        ),
        StmtKind::If { condition, statements, elif_statements, else_statements } => {
            let head = seq![Node::Expr(condition), Node::Scope(statements)];
            lemma_traces_two(Node::Expr(condition), Node::Scope(statements));
            lemma_traces_elifs(elif_statements@);
            lemma_traces_optional_scope(else_statements);
            lemma_traces_concat(head, elif_nodes(elif_statements@));
            lemma_traces_concat(head + elif_nodes(elif_statements@), optional_scope_nodes(else_statements));
        },
        StmtKind::Expression(e) => lemma_traces_one(Node::Expr(e)),
        StmtKind::Assignment { variable, value } => lemma_traces_two(
            Node::Reference(variable),
            Node::Expr(value),
        ),
        StmtKind::Return(e) => {
            if let Some(e) = e {
                lemma_traces_one(Node::Expr(e));
            }
        },
        StmtKind::Scope(sc) => lemma_traces_one(Node::Scope(sc)),
        StmtKind::Class(c) => lemma_traces_one(Node::Class(c)),
        StmtKind::TryCatch { try_statements, catch_block, finally_statements } => {
            let head = seq![Node::Scope(try_statements)];
            lemma_traces_one(Node::Scope(try_statements));
            if let Some(c) = catch_block {
                lemma_traces_one(Node::Scope(c.statements));
            }
            lemma_traces_optional_scope(finally_statements);
            lemma_traces_concat(head, catch_nodes(catch_block));
            lemma_traces_concat(head + catch_nodes(catch_block), optional_scope_nodes(finally_statements));
        },
        _ => {},
    }
    assert(trace_stmt(s, false) =~= seq![Node::Stmt(s)] + traces(stmt_children(s)));
}

proof fn lemma_expr_follows_default_order(e: Expr)
    ensures
        trace_expr(e, false) == seq![Node::Expr(e)] + traces(expr_children(e)),
{
    match e.kind {
        ExprKind::New { obj_scope, arg_list, .. } => {
            lemma_traces_one(Node::Args(arg_list));
            if let Some(o) = obj_scope {
                lemma_traces_one(Node::Expr(*o));
            } else {
                assert(traces(Seq::<Node>::empty()) =~= Seq::<Node>::empty());
            }
            lemma_traces_concat(object_scope_nodes(obj_scope), seq![Node::Args(arg_list)]);
        },
        ExprKind::Literal(l) => lemma_traces_one(Node::Literal(l)),
        ExprKind::Reference(r) => lemma_traces_one(Node::Reference(r)),
        ExprKind::Call { function, arg_list } => lemma_traces_two(Node::Expr(*function), Node::Args(arg_list)),
        ExprKind::Unary { exp, .. } => lemma_traces_one(Node::Expr(*exp)),
        ExprKind::Binary { left, right, .. } => lemma_traces_two(Node::Expr(*left), Node::Expr(*right)),
        ExprKind::ArrayLiteral { items, .. } => lemma_traces_exprs(items@),
        ExprKind::StructLiteral { fields, .. } => lemma_traces_field_values(fields@),
        ExprKind::MapLiteral { fields, .. } => lemma_traces_field_values(fields@),
        ExprKind::SetLiteral { items, .. } => lemma_traces_exprs(items@),
        ExprKind::FunctionClosure(d) => lemma_traces_one(Node::FunctionDefinition(d)),
    }
    assert(trace_expr(e, false) =~= seq![Node::Expr(e)] + traces(expr_children(e)));
}

} // verus!
