use wingc::ast::{ArgList, Expr, ExprKind, Literal, Reference, Scope, Stmt, StmtKind};
use wingc::recorder::{Category, NodeRef, Recorder};
use wingc::visit::Visit;

fn ident(name: &str) -> Expr {
    Expr { kind: ExprKind::Reference(Reference::Identifier(name.to_string())) }
}

fn num(n: i64) -> Expr {
    Expr { kind: ExprKind::Literal(Literal::Number(n)) }
}

fn expr_stmt(e: Expr) -> Stmt {
    Stmt { kind: StmtKind::Expression(e) }
}

fn for_loop(iterable: Expr, body: Vec<Stmt>) -> Stmt {
    Stmt {
        kind: StmtKind::ForLoop { iterator: "i".to_string(), iterable, statements: Scope { statements: body } },
    }
}

fn categories(log: &[NodeRef]) -> Vec<Category> {
    log.iter().map(|r| r.category()).collect()
}

fn is_expr(r: &NodeRef, e: &Expr) -> bool {
    matches!(r, NodeRef::Expr(x) if std::ptr::eq(*x, e))
}

#[test]
fn recorder_for_loop_order() {
    let print_call = Expr {
        kind: ExprKind::Call {
            function: Box::new(ident("print")),
            arg_list: ArgList { pos_args: vec![ident("i")], named_args: vec![] },
        },
    };
    let s = for_loop(ident("items"), vec![expr_stmt(print_call)]);
    let mut r = Recorder::new(false, None);
    r.visit_stmt(&s);
    assert_eq!(
        categories(&r.log),
        vec![Category::Stmt, Category::Expr, Category::Reference, Category::Scope, Category::Stmt, Category::Expr, Category::Expr, Category::Reference, Category::Args, Category::Expr, Category::Reference]
    );
    if let StmtKind::ForLoop { iterable, statements, .. } = &s.kind {
        assert!(is_expr(&r.log[1], iterable));
        assert!(matches!(r.log[3], NodeRef::Scope(x) if std::ptr::eq(x, statements)));
        if let StmtKind::Expression(call) = &statements.statements[0].kind {
            if let ExprKind::Call { function, arg_list } = &call.kind {
                assert!(is_expr(&r.log[6], function));
                assert!(is_expr(&r.log[9], &arg_list.pos_args[0]));
            } else {
                panic!("not a call");
            }
        } else {
            panic!("not an expression statement");
        }
    } else {
        panic!("not a for-loop");
    }
}

#[test]
fn recorder_if_else_order() {
    let s = Stmt {
        kind: StmtKind::If {
            condition: ident("x"),
            statements: Scope { statements: vec![expr_stmt(ident("y"))] },
            elif_statements: vec![],
            else_statements: Some(Scope { statements: vec![expr_stmt(ident("z"))] }),
        },
    };
    let mut r = Recorder::new(false, Some(Category::Expr));
    r.visit_stmt(&s);
    let names: Vec<Expr> = vec![ident("x"), ident("y"), ident("z")];
    assert_eq!(r.log.len(), 3);
    for (entry, expected) in r.log.iter().zip(names.iter()) {
        match entry {
            NodeRef::Expr(e) => assert_eq!(*e, expected),
            other => panic!("unexpected {:?}", other),
        }
    }
}

#[test]
fn recorder_struct_literal_field_values_only() {
    let e = Expr {
        kind: ExprKind::StructLiteral {
            type_: "S".to_string(),
            fields: vec![("a".to_string(), num(1)), ("b".to_string(), num(2))],
        },
    };
    let mut r = Recorder::new(false, Some(Category::Expr));
    r.visit_expr(&e);
    assert_eq!(r.log.len(), 3);
    assert!(is_expr(&r.log[0], &e));
    match (&r.log[1], &r.log[2]) {
        (NodeRef::Expr(a), NodeRef::Expr(b)) => {
            assert_eq!(**a, num(1));
            assert_eq!(**b, num(2));
        },
        _ => panic!("expected two expressions"),
    }
}

#[test]
fn recorder_empty_for_body() {
    let s = for_loop(ident("items"), vec![]);
    let mut r = Recorder::new(false, None);
    r.visit_stmt(&s);
    assert_eq!(categories(&r.log), vec![Category::Stmt, Category::Expr, Category::Reference, Category::Scope]);
}

#[test]
fn recorder_pruning_keeps_siblings() {
    let root = Scope {
        statements: vec![
            expr_stmt(ident("before")),
            for_loop(ident("items"), vec![expr_stmt(ident("inside"))]),
            expr_stmt(ident("after")),
        ],
    };
    let mut r = Recorder::new(true, None);
    r.visit_scope(&root);
    assert_eq!(
        categories(&r.log),
        vec![Category::Scope, Category::Stmt, Category::Expr, Category::Reference, Category::Stmt, Category::Stmt, Category::Expr, Category::Reference]
    );
    assert!(matches!(r.log[4], NodeRef::Stmt(x) if std::ptr::eq(x, &root.statements[1])));
    assert!(matches!(r.log[5], NodeRef::Stmt(x) if std::ptr::eq(x, &root.statements[2])));
    let mut full = Recorder::new(false, None);
    full.visit_scope(&root);
    assert_eq!(full.log.len(), 14);
}

fn sample() -> Scope {
    Scope {
        statements: vec![
            Stmt {
                kind: StmtKind::VariableDef {
                    reassignable: true,
                    var_name: "v".to_string(),
                    initial_value: Expr {
                        kind: ExprKind::New {
                            class: "C".to_string(),
                            obj_id: Some("c".to_string()),
                            obj_scope: None,
                            arg_list: ArgList {
                                pos_args: vec![num(1)],
                                named_args: vec![("n".to_string(), ident("m"))],
                            },
                        },
                    },
                    type_: Some("C".to_string()),
                },
            },
            Stmt {
                kind: StmtKind::Assignment {
                    variable: Reference::NestedIdentifier { object: Box::new(ident("v")), property: "p".to_string() },
                    value: num(2),
                },
            },
            for_loop(ident("xs"), vec![Stmt { kind: StmtKind::Return(Some(ident("x"))) }]),
        ],
    }
}

#[test]
fn recorder_visits_each_node_once() {
    let p = sample();
    let mut r = Recorder::new(false, None);
    r.visit_scope(&p);
    // scope; let: stmt, new, args, 1, lit, m, ref; assign: stmt, ref, v, ref, 2, lit;
    // for: stmt, xs, ref, scope, return, x, ref
    assert_eq!(r.log.len(), 21);
}

#[test]
fn recorder_is_deterministic() {
    let p = sample();
    let mut a = Recorder::new(false, None);
    let mut b = Recorder::new(false, None);
    a.visit_scope(&p);
    b.visit_scope(&p);
    assert_eq!(a.log.len(), b.log.len());
    for (x, y) in a.log.iter().zip(b.log.iter()) {
        assert_eq!(format!("{:?}", x), format!("{:?}", y));
    }
}

#[test]
fn recorder_one_category_is_the_full_log_filtered() {
    let p = sample();
    let mut all = Recorder::new(false, None);
    all.visit_scope(&p);
    for k in [Category::Expr, Category::Reference, Category::Stmt, Category::Args, Category::Literal] {
        let mut one = Recorder::new(false, Some(k));
        one.visit_scope(&p);
        let expected: Vec<String> =
            all.log.iter().filter(|r| r.category() == k).map(|r| format!("{:?}", r)).collect();
        let got: Vec<String> = one.log.iter().map(|r| format!("{:?}", r)).collect();
        assert_eq!(got, expected);
    }
}
