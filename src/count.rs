use vstd::prelude::*;

use crate::ast::{
    ArgList, CatchBlock, Class, Constructor, ElifBlock, Expr, ExprKind, FunctionDefinition, InterpolatedStringPart,
    Literal, Reference, Scope, Stmt, StmtKind,
};
use crate::recorder::{
    trace_args, trace_catch, trace_class, trace_constructor, trace_elifs, trace_expr, trace_exprs,
    trace_field_values, trace_function_definition, trace_literal, trace_methods, trace_optional_scope,
    trace_parts, trace_reference, trace_scope, trace_stmt, trace_stmts,
};

verus! {

broadcast use vstd::std_specs::vec::group_vec_axioms, vstd::seq::group_seq_axioms;

/// The number of nodes of a scope's tree, counting one per scope, statement,
/// class, constructor, expression, literal, reference, function definition and
/// argument list.
pub open spec fn count_scope(s: Scope) -> nat
    decreases s,
{
    1 + count_stmts(s.statements@)
}

pub open spec fn count_stmts(ss: Seq<Stmt>) -> nat
    decreases ss,
{
    if ss.len() == 0 {
        0
    } else {
        count_stmts(ss.drop_last()) + count_stmt(ss.last())
    }
}

pub open spec fn count_optional_scope(s: Option<Scope>) -> nat
    decreases s,
{
    match s {
        Some(s) => count_scope(s),
        None => 0,
    }
}

pub open spec fn count_catch(c: Option<CatchBlock>) -> nat
    decreases c,
{
    match c {
        Some(c) => count_scope(c.statements),
        None => 0,
    }
}

pub open spec fn count_elifs(elifs: Seq<ElifBlock>) -> nat
    decreases elifs,
{
    if elifs.len() == 0 {
        0
    } else {
        count_elifs(elifs.drop_last()) + count_expr(elifs.last().condition) + count_scope(
            elifs.last().statements,
        )
    }
}

pub open spec fn count_stmt(s: Stmt) -> nat
    decreases s,
{
    1 + match s.kind {
        StmtKind::Bring { .. } => 0,
        StmtKind::VariableDef { initial_value, .. } => count_expr(initial_value),
        StmtKind::ForLoop { iterable, statements, .. } => count_expr(iterable) + count_scope(statements),
        StmtKind::While { condition, statements } => count_expr(condition) + count_scope(statements),
        StmtKind::If { condition, statements, elif_statements, else_statements } => count_expr(condition)
            + count_scope(statements) + count_elifs(elif_statements@) + count_optional_scope(
            else_statements,
        ),
        StmtKind::Expression(e) => count_expr(e),
        StmtKind::Assignment { variable, value } => count_reference(variable) + count_expr(value),
        StmtKind::Return(e) => match e {
            Some(e) => count_expr(e),
            None => 0,
        },
        StmtKind::Scope(sc) => count_scope(sc),
        StmtKind::Class(c) => count_class(c),
        StmtKind::Struct { .. } => 0,
        StmtKind::Enum { .. } => 0,
        StmtKind::TryCatch { try_statements, catch_block, finally_statements } => count_scope(
            try_statements,
        ) + count_catch(catch_block) + count_optional_scope(finally_statements),
    }
}

pub open spec fn count_methods(ms: Seq<(String, FunctionDefinition)>) -> nat
    decreases ms,
{
    if ms.len() == 0 {
        0
    } else {
        count_methods(ms.drop_last()) + count_function_definition(ms.last().1)
    }
}

pub open spec fn count_class(c: Class) -> nat
    decreases c,
{
    1 + count_constructor(c.constructor) + count_methods(c.methods@)
}

pub open spec fn count_constructor(c: Constructor) -> nat
    decreases c,
{
    1 + count_scope(c.statements)
}

pub open spec fn count_function_definition(d: FunctionDefinition) -> nat
    decreases d,
{
    1 + count_scope(d.statements)
}

pub open spec fn count_exprs(es: Seq<Expr>) -> nat
    decreases es,
{
    if es.len() == 0 {
        0
    } else {
        count_exprs(es.drop_last()) + count_expr(es.last())
    }
}

pub open spec fn count_field_values(fs: Seq<(String, Expr)>) -> nat
    decreases fs,
{
    if fs.len() == 0 {
        0
    } else {
        count_field_values(fs.drop_last()) + count_expr(fs.last().1)
    }
}

pub open spec fn count_expr(e: Expr) -> nat
    decreases e,
{
    1 + match e.kind {
        ExprKind::New { obj_scope, arg_list, .. } => (match obj_scope {
            Some(s) => count_expr(*s),
            None => 0,
        }) + count_args(arg_list),
        ExprKind::Literal(l) => count_literal(l),
        ExprKind::Reference(r) => count_reference(r),
        ExprKind::Call { function, arg_list } => count_expr(*function) + count_args(arg_list),
        ExprKind::Unary { exp, .. } => count_expr(*exp),
        ExprKind::Binary { left, right, .. } => count_expr(*left) + count_expr(*right),
        ExprKind::ArrayLiteral { items, .. } => count_exprs(items@),
        ExprKind::StructLiteral { fields, .. } => count_field_values(fields@),
        ExprKind::MapLiteral { fields, .. } => count_field_values(fields@),
        ExprKind::SetLiteral { items, .. } => count_exprs(items@),
        ExprKind::FunctionClosure(d) => count_function_definition(d),
    }
}

pub open spec fn count_parts(parts: Seq<InterpolatedStringPart>) -> nat
    decreases parts,
{
    if parts.len() == 0 {
        0
    } else {
        count_parts(parts.drop_last()) + match parts.last() {
            InterpolatedStringPart::Expr(e) => count_expr(e),
            InterpolatedStringPart::Static(_) => 0,
        }
    }
}

pub open spec fn count_literal(l: Literal) -> nat
    decreases l,
{
    1 + match l {
        Literal::InterpolatedString(s) => count_parts(s.parts@),
        _ => 0,
    }
}

pub open spec fn count_reference(r: Reference) -> nat
    decreases r,
{
    1 + match r {
        Reference::NestedIdentifier { object, .. } => count_expr(*object),
        Reference::Identifier(_) => 0,
    }
}

pub open spec fn count_args(a: ArgList) -> nat
    decreases a,
{
    1 + count_exprs(a.pos_args@) + count_field_values(a.named_args@)
}

/// A full traversal without pruning makes exactly one visit per node of the
/// tree: the trace of a scope is as long as the scope's node count.
pub proof fn lemma_traversal_total(s: Scope)
    ensures
        trace_scope(s, false).len() == count_scope(s),
    decreases s,
{
    lemma_stmts_total(s.statements@);
}

proof fn lemma_stmts_total(ss: Seq<Stmt>)
    ensures
        trace_stmts(ss, false).len() == count_stmts(ss),
    decreases ss,
{
    if ss.len() > 0 {
        lemma_stmts_total(ss.drop_last());
        lemma_stmt_total(ss.last());
    }
}

proof fn lemma_optional_scope_total(s: Option<Scope>)
    ensures
        trace_optional_scope(s, false).len() == count_optional_scope(s),
    decreases s,
{
    if let Some(s) = s {
        lemma_traversal_total(s);
    }
}

proof fn lemma_catch_total(c: Option<CatchBlock>)
    ensures
        trace_catch(c, false).len() == count_catch(c),
    decreases c,
{
    if let Some(c) = c {
        lemma_traversal_total(c.statements);
    }
}

proof fn lemma_elifs_total(elifs: Seq<ElifBlock>)
    ensures
        trace_elifs(elifs, false).len() == count_elifs(elifs),
    decreases elifs,
{
    if elifs.len() > 0 {
        lemma_elifs_total(elifs.drop_last());
        lemma_expr_total(elifs.last().condition);
        lemma_traversal_total(elifs.last().statements);
    }
}

proof fn lemma_stmt_total(s: Stmt)
    ensures
        trace_stmt(s, false).len() == count_stmt(s),
    decreases s,
{
    match s.kind {
        StmtKind::Bring { .. } => {},
        StmtKind::VariableDef { initial_value, .. } => lemma_expr_total(initial_value),
        StmtKind::ForLoop { iterable, statements, .. } => {
            lemma_expr_total(iterable);
            lemma_traversal_total(statements);
        },
        StmtKind::While { condition, statements } => {
            lemma_expr_total(condition);
            lemma_traversal_total(statements);
        },
        StmtKind::If { condition, statements, elif_statements, else_statements } => {
            lemma_expr_total(condition);
            lemma_traversal_total(statements);
            lemma_elifs_total(elif_statements@);
            lemma_optional_scope_total(else_statements);
        },
        StmtKind::Expression(e) => lemma_expr_total(e),
        StmtKind::Assignment { variable, value } => {
            lemma_reference_total(variable);
            lemma_expr_total(value);
        },
        StmtKind::Return(e) => {
            if let Some(e) = e {
                lemma_expr_total(e);
            }
        },
        StmtKind::Scope(sc) => lemma_traversal_total(sc),
        StmtKind::Class(c) => lemma_class_total(c),
        StmtKind::Struct { .. } => {},
        StmtKind::Enum { .. } => {},
        StmtKind::TryCatch { try_statements, catch_block, finally_statements } => {
            lemma_traversal_total(try_statements);
            lemma_catch_total(catch_block);
            lemma_optional_scope_total(finally_statements);
        },
    }
}

proof fn lemma_methods_total(ms: Seq<(String, FunctionDefinition)>)
    ensures
        trace_methods(ms, false).len() == count_methods(ms),
    decreases ms,
{
    if ms.len() > 0 {
        lemma_methods_total(ms.drop_last());
        lemma_function_definition_total(ms.last().1);
    }
}

proof fn lemma_class_total(c: Class)
    ensures
        trace_class(c, false).len() == count_class(c),
    decreases c,
{
    lemma_constructor_total(c.constructor);
    lemma_methods_total(c.methods@);
}

proof fn lemma_constructor_total(c: Constructor)
    ensures
        trace_constructor(c, false).len() == count_constructor(c),
    decreases c,
{
    lemma_traversal_total(c.statements);
}

proof fn lemma_function_definition_total(d: FunctionDefinition)
    ensures
        trace_function_definition(d, false).len() == count_function_definition(d),
    decreases d,
{
    lemma_traversal_total(d.statements);
}

proof fn lemma_exprs_total(es: Seq<Expr>)
    ensures
        trace_exprs(es, false).len() == count_exprs(es),
    decreases es,
{
    if es.len() > 0 {
        lemma_exprs_total(es.drop_last());
        lemma_expr_total(es.last());
    }
}

proof fn lemma_field_values_total(fs: Seq<(String, Expr)>)
    ensures
        trace_field_values(fs, false).len() == count_field_values(fs),
    decreases fs,
{
    if fs.len() > 0 {
        lemma_field_values_total(fs.drop_last());
        lemma_expr_total(fs.last().1);
    }
}

proof fn lemma_expr_total(e: Expr)
    ensures
        trace_expr(e, false).len() == count_expr(e),
    decreases e,
{
    match e.kind {
        ExprKind::New { obj_scope, arg_list, .. } => {
            if let Some(s) = obj_scope {
                lemma_expr_total(*s);
            }
            lemma_args_total(arg_list);
        },
        ExprKind::Literal(l) => lemma_literal_total(l),
        ExprKind::Reference(r) => lemma_reference_total(r),
        ExprKind::Call { function, arg_list } => {
            lemma_expr_total(*function);
            lemma_args_total(arg_list);
        },
        ExprKind::Unary { exp, .. } => lemma_expr_total(*exp),
        ExprKind::Binary { left, right, .. } => {
            lemma_expr_total(*left);
            lemma_expr_total(*right);
        },
        ExprKind::ArrayLiteral { items, .. } => lemma_exprs_total(items@),
        ExprKind::StructLiteral { fields, .. } => lemma_field_values_total(fields@),
        ExprKind::MapLiteral { fields, .. } => lemma_field_values_total(fields@),
        ExprKind::SetLiteral { items, .. } => lemma_exprs_total(items@),
        ExprKind::FunctionClosure(d) => lemma_function_definition_total(d),
    }
}

proof fn lemma_parts_total(parts: Seq<InterpolatedStringPart>)
    ensures
        trace_parts(parts, false).len() == count_parts(parts),
    decreases parts,
{
    if parts.len() > 0 {
        lemma_parts_total(parts.drop_last());
        if let InterpolatedStringPart::Expr(e) = parts.last() {
            lemma_expr_total(e);
        }
    }
}

proof fn lemma_literal_total(l: Literal)
    ensures
        trace_literal(l, false).len() == count_literal(l),
    decreases l,
{
    if let Literal::InterpolatedString(s) = l {
        lemma_parts_total(s.parts@);
    }
}

proof fn lemma_reference_total(r: Reference)
    ensures
        trace_reference(r, false).len() == count_reference(r),
    decreases r,
{
    if let Reference::NestedIdentifier { object, .. } = r {
        lemma_expr_total(*object);
    }
}

proof fn lemma_args_total(a: ArgList)
    ensures
        trace_args(a, false).len() == count_args(a),
    decreases a,
{
    lemma_exprs_total(a.pos_args@);
    lemma_field_values_total(a.named_args@);
}

} // verus!
