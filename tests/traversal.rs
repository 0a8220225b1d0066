use wingc::ast::{
    ArgList, BinaryOperator, CatchBlock, Class, Constructor, ElifBlock, Expr, ExprKind, FunctionDefinition,
    InterpolatedString, InterpolatedStringPart, Literal, Reference, Scope, Stmt, StmtKind,
};
use wingc::visit::{
    visit_args, visit_class, visit_constructor, visit_expr, visit_function_definition, visit_literal,
    visit_reference, visit_scope, visit_stmt, Visit,
};

fn ident(name: &str) -> Expr {
    Expr { kind: ExprKind::Reference(Reference::Identifier(name.to_string())) }
}

fn num(n: i64) -> Expr {
    Expr { kind: ExprKind::Literal(Literal::Number(n)) }
}

fn stmt(kind: StmtKind) -> Stmt {
    Stmt { kind }
}

fn expr_stmt(e: Expr) -> Stmt {
    stmt(StmtKind::Expression(e))
}

fn scope(statements: Vec<Stmt>) -> Scope {
    Scope { statements }
}

fn no_args() -> ArgList {
    ArgList { pos_args: vec![], named_args: vec![] }
}

fn call(name: &str, args: Vec<Expr>) -> Expr {
    Expr {
        kind: ExprKind::Call {
            function: Box::new(ident(name)),
            arg_list: ArgList { pos_args: args, named_args: vec![] },
        },
    }
}

fn expr_label(e: &Expr) -> String {
    match &e.kind {
        ExprKind::Reference(Reference::Identifier(n)) => n.clone(),
        ExprKind::Literal(Literal::Number(n)) => n.to_string(),
        ExprKind::Call { .. } => "call".to_string(),
        ExprKind::Binary { .. } => "binary".to_string(),
        _ => "expr".to_string(),
    }
}

fn ref_label(r: &Reference) -> String {
    match r {
        Reference::Identifier(n) => n.clone(),
        Reference::NestedIdentifier { property, .. } => format!(".{}", property),
    }
}

fn stmt_label(s: &Stmt) -> String {
    match &s.kind {
        StmtKind::Expression(e) => expr_label(e),
        StmtKind::ForLoop { iterator, .. } => format!("for {}", iterator),
        StmtKind::If { .. } => "if".to_string(),
        StmtKind::Return(_) => "return".to_string(),
        _ => "stmt".to_string(),
    }
}

/// Logs every visit point, then continues into the children, unless `prune_for_loops`
/// is set and the statement is a for-loop.
struct Logger {
    log: Vec<String>,
    only: Option<&'static str>,
    prune_for_loops: bool,
}

impl Logger {
    fn new() -> Logger {
        Logger { log: vec![], only: None, prune_for_loops: false }
    }

    fn note(&mut self, kind: &'static str, label: String) {
        if self.only.is_none() || self.only == Some(kind) {
            self.log.push(format!("{} {}", kind, label));
        }
    }
}

impl<'ast> Visit<'ast> for Logger {
    fn visit_scope(&mut self, node: &'ast Scope) {
        self.note("scope", node.statements.len().to_string());
        visit_scope(self, node);
    }
    fn visit_stmt(&mut self, node: &'ast Stmt) {
        self.note("stmt", stmt_label(node));
        if self.prune_for_loops {
            if let StmtKind::ForLoop { .. } = node.kind {
                return;
            }
        }
        visit_stmt(self, node);
    }
    fn visit_class(&mut self, node: &'ast Class) {
        self.note("class", node.name.clone());
        visit_class(self, node);
    }
    fn visit_constructor(&mut self, node: &'ast Constructor) {
        self.note("ctor", String::new());
        visit_constructor(self, node);
    }
    fn visit_expr(&mut self, node: &'ast Expr) {
        self.note("expr", expr_label(node));
        visit_expr(self, node);
    }
    fn visit_literal(&mut self, node: &'ast Literal) {
        self.note("lit", String::new());
        visit_literal(self, node);
    }
    fn visit_reference(&mut self, node: &'ast Reference) {
        self.note("ref", ref_label(node));
        visit_reference(self, node);
    }
    fn visit_function_definition(&mut self, node: &'ast FunctionDefinition) {
        self.note("fn", String::new());
        visit_function_definition(self, node);
    }
    fn visit_args(&mut self, node: &'ast ArgList) {
        self.note("args", String::new());
        visit_args(self, node);
    }
}

/// Visits nothing but what the default traversal of the root reaches, and logs nothing.
struct Silent {
    calls: usize,
}

impl<'ast> Visit<'ast> for Silent {
    fn visit_scope(&mut self, node: &'ast Scope) {
        self.calls += 1;
        visit_scope(self, node);
    }
    fn visit_stmt(&mut self, node: &'ast Stmt) {
        self.calls += 1;
        visit_stmt(self, node);
    }
    fn visit_class(&mut self, node: &'ast Class) {
        self.calls += 1;
        visit_class(self, node);
    }
    fn visit_constructor(&mut self, node: &'ast Constructor) {
        self.calls += 1;
        visit_constructor(self, node);
    }
    fn visit_expr(&mut self, node: &'ast Expr) {
        self.calls += 1;
        visit_expr(self, node);
    }
    fn visit_literal(&mut self, node: &'ast Literal) {
        self.calls += 1;
        visit_literal(self, node);
    }
    fn visit_reference(&mut self, node: &'ast Reference) {
        self.calls += 1;
        visit_reference(self, node);
    }
    fn visit_function_definition(&mut self, node: &'ast FunctionDefinition) {
        self.calls += 1;
        visit_function_definition(self, node);
    }
    fn visit_args(&mut self, node: &'ast ArgList) {
        self.calls += 1;
        visit_args(self, node);
    }
}

fn for_loop(iterator: &str, iterable: Expr, body: Vec<Stmt>) -> Stmt {
    stmt(StmtKind::ForLoop { iterator: iterator.to_string(), iterable, statements: scope(body) })
}

fn trace_of_scope(s: &Scope) -> Vec<String> {
    let mut l = Logger::new();
    l.visit_scope(s);
    l.log
}

#[test]
fn for_loop_visits_iterable_then_body() {
    let s = for_loop("i", ident("items"), vec![expr_stmt(call("print", vec![ident("i")]))]);
    let mut l = Logger::new();
    visit_stmt(&mut l, &s);
    assert_eq!(
        l.log,
        vec![
            "expr items", "ref items", "scope 1", "stmt call", "expr call", "expr print", "ref print",
            "args ", "expr i", "ref i",
        ]
    );
}

#[test]
fn if_else_visits_condition_then_branches() {
    let s = stmt(StmtKind::If {
        condition: ident("x"),
        statements: scope(vec![expr_stmt(ident("y"))]),
        elif_statements: vec![],
        else_statements: Some(scope(vec![expr_stmt(ident("z"))])),
    });
    let mut l = Logger::new();
    l.only = None;
    visit_stmt(&mut l, &s);
    assert_eq!(
        l.log,
        vec!["expr x", "ref x", "scope 1", "stmt y", "expr y", "ref y", "scope 1", "stmt z", "expr z", "ref z"]
    );
}

#[test]
fn struct_literal_visits_field_values_in_stored_order() {
    let e = Expr {
        kind: ExprKind::StructLiteral {
            type_: "S".to_string(),
            fields: vec![("a".to_string(), num(1)), ("b".to_string(), num(2))],
        },
    };
    let mut l = Logger::new();
    l.only = Some("expr");
    visit_expr(&mut l, &e);
    assert_eq!(l.log, vec!["expr 1", "expr 2"]);
}

#[test]
fn map_literal_keeps_stored_order() {
    let e = Expr {
        kind: ExprKind::MapLiteral {
            type_: None,
            fields: vec![("z".to_string(), num(9)), ("a".to_string(), num(3))],
        },
    };
    let mut l = Logger::new();
    l.only = Some("expr");
    visit_expr(&mut l, &e);
    assert_eq!(l.log, vec!["expr 9", "expr 3"]);
}

#[test]
fn empty_for_body_visits_no_statement() {
    let s = for_loop("i", ident("items"), vec![]);
    let mut l = Logger::new();
    visit_stmt(&mut l, &s);
    assert_eq!(l.log, vec!["expr items", "ref items", "scope 0"]);
}

#[test]
fn if_without_else_or_elif_visits_condition_and_then_scope() {
    let s = stmt(StmtKind::If {
        condition: ident("c"),
        statements: scope(vec![]),
        elif_statements: vec![],
        else_statements: None,
    });
    let mut l = Logger::new();
    visit_stmt(&mut l, &s);
    assert_eq!(l.log, vec!["expr c", "ref c", "scope 0"]);
}

#[test]
fn elif_clauses_come_between_then_and_else() {
    let s = stmt(StmtKind::If {
        condition: ident("a"),
        statements: scope(vec![]),
        elif_statements: vec![
            ElifBlock { condition: ident("b"), statements: scope(vec![expr_stmt(num(1))]) },
            ElifBlock { condition: ident("c"), statements: scope(vec![]) },
        ],
        else_statements: Some(scope(vec![expr_stmt(num(2))])),
    });
    let mut l = Logger::new();
    l.only = Some("expr");
    visit_stmt(&mut l, &s);
    assert_eq!(l.log, vec!["expr a", "expr b", "expr 1", "expr c", "expr 2"]);
}

#[test]
fn try_without_catch_or_finally_visits_only_try_scope() {
    let s = stmt(StmtKind::TryCatch {
        try_statements: scope(vec![expr_stmt(ident("t"))]),
        catch_block: None,
        finally_statements: None,
    });
    let mut l = Logger::new();
    visit_stmt(&mut l, &s);
    assert_eq!(l.log, vec!["scope 1", "stmt t", "expr t", "ref t"]);
}

#[test]
fn try_catch_finally_in_order() {
    let s = stmt(StmtKind::TryCatch {
        try_statements: scope(vec![expr_stmt(num(1))]),
        catch_block: Some(CatchBlock {
            exception_var: Some("e".to_string()),
            statements: scope(vec![expr_stmt(num(2))]),
        }),
        finally_statements: Some(scope(vec![expr_stmt(num(3))])),
    });
    let mut l = Logger::new();
    l.only = Some("expr");
    visit_stmt(&mut l, &s);
    assert_eq!(l.log, vec!["expr 1", "expr 2", "expr 3"]);
}

#[test]
fn pruned_for_loop_hides_its_children_but_not_its_siblings() {
    let root = scope(vec![
        expr_stmt(ident("before")),
        for_loop("i", ident("items"), vec![expr_stmt(ident("inside"))]),
        expr_stmt(ident("after")),
    ]);
    let mut l = Logger::new();
    l.prune_for_loops = true;
    l.visit_scope(&root);
    assert_eq!(
        l.log,
        vec!["scope 3", "stmt before", "expr before", "ref before", "stmt for i", "stmt after", "expr after", "ref after"]
    );
}

fn sample_program() -> Scope {
    let method = FunctionDefinition {
        parameters: vec!["x".to_string()],
        statements: scope(vec![stmt(StmtKind::Return(Some(Expr {
            kind: ExprKind::Binary {
                op: BinaryOperator::Add,
                left: Box::new(ident("x")),
                right: Box::new(num(1)),
            },
        })))]),
    };
    let class = Class {
        name: "C".to_string(),
        parent: None,
        constructor: Constructor { parameters: vec![], statements: scope(vec![expr_stmt(num(0))]) },
        methods: vec![("inc".to_string(), method)],
    };
    let text = Expr {
        kind: ExprKind::Literal(Literal::InterpolatedString(InterpolatedString {
            parts: vec![
                InterpolatedStringPart::Static("n=".to_string()),
                InterpolatedStringPart::Expr(ident("n")),
            ],
        })),
    };
    let nested = Reference::NestedIdentifier { object: Box::new(ident("obj")), property: "f".to_string() };
    scope(vec![
        stmt(StmtKind::Bring { module_name: "cloud".to_string(), identifier: None }),
        stmt(StmtKind::VariableDef {
            reassignable: false,
            var_name: "s".to_string(),
            initial_value: text,
            type_: None,
        }),
        stmt(StmtKind::Class(class)),
        stmt(StmtKind::Assignment { variable: nested, value: num(5) }),
        stmt(StmtKind::While { condition: ident("w"), statements: scope(vec![]) }),
        stmt(StmtKind::Scope(scope(vec![expr_stmt(Expr {
            kind: ExprKind::New {
                class: "C".to_string(),
                obj_id: None,
                obj_scope: Some(Box::new(ident("self"))),
                arg_list: ArgList {
                    pos_args: vec![num(7)],
                    named_args: vec![("k".to_string(), num(8))],
                },
            },
        })]))),
        stmt(StmtKind::Return(None)),
    ])
}

#[test]
fn full_traversal_of_sample_program() {
    let log = trace_of_scope(&sample_program());
    assert_eq!(
        log,
        vec![
            "scope 7", "stmt stmt", "stmt stmt", "expr expr", "lit ", "expr n", "ref n", "stmt stmt", "class C",
            "ctor ", "scope 1", "stmt 0", "expr 0", "lit ", "fn ", "scope 1", "stmt return", "expr binary",
            "expr x", "ref x", "expr 1", "lit ", "stmt stmt", "ref .f", "expr obj", "ref obj", "expr 5", "lit ",
            "stmt stmt", "expr w", "ref w", "scope 0", "stmt stmt", "scope 1", "stmt expr", "expr expr",
            "expr self", "ref self", "args ", "expr 7", "lit ", "expr 8", "lit ", "stmt return",
        ]
    );
}

#[test]
fn two_traversals_give_the_same_trace() {
    let p = sample_program();
    assert_eq!(trace_of_scope(&p), trace_of_scope(&p));
}

#[test]
fn visit_count_matches_a_count_of_the_nodes() {
    let p = sample_program();
    let mut s = Silent { calls: 0 };
    s.visit_scope(&p);
    assert_eq!(s.calls, trace_of_scope(&p).len());
    assert_eq!(s.calls, 44);
}

#[test]
fn logging_one_point_keeps_the_order_of_the_others() {
    let p = sample_program();
    let full = trace_of_scope(&p);
    let mut only_refs = Logger::new();
    only_refs.only = Some("ref");
    only_refs.visit_scope(&p);
    let expected: Vec<String> = full.into_iter().filter(|e| e.starts_with("ref ")).collect();
    assert_eq!(only_refs.log, expected);
}

#[test]
fn unary_array_set_and_closure() {
    let e = Expr {
        kind: ExprKind::ArrayLiteral {
            type_: None,
            items: vec![
                Expr { kind: ExprKind::Unary { op: wingc::ast::UnaryOperator::Minus, exp: Box::new(num(1)) } },
                Expr { kind: ExprKind::SetLiteral { type_: None, items: vec![num(2), num(3)] } },
                Expr {
                    kind: ExprKind::FunctionClosure(FunctionDefinition {
                        parameters: vec![],
                        statements: scope(vec![expr_stmt(num(4))]),
                    }),
                },
            ],
        },
    };
    let mut l = Logger::new();
    l.only = Some("expr");
    visit_expr(&mut l, &e);
    assert_eq!(l.log, vec!["expr expr", "expr 1", "expr expr", "expr 2", "expr 3", "expr expr", "expr 4"]);
}

#[test]
fn leaves_have_no_children() {
    let mut s = Silent { calls: 0 };
    visit_literal(&mut s, &Literal::Boolean(true));
    visit_literal(&mut s, &Literal::Duration(1500));
    visit_literal(&mut s, &Literal::String("s".to_string()));
    visit_reference(&mut s, &Reference::Identifier("x".to_string()));
    visit_stmt(&mut s, &stmt(StmtKind::Struct { name: "S".to_string(), extends: vec![], members: vec![] }));
    visit_stmt(&mut s, &stmt(StmtKind::Enum { name: "E".to_string(), values: vec!["A".to_string()] }));
    visit_args(&mut s, &no_args());
    assert_eq!(s.calls, 0);
}
