use oxidized_patterns::patterns::fold::ast::{Expr, Name, Stmt};
use oxidized_patterns::patterns::fold::{Folder, Identity, KindRecorder, NodeKind, Renamer};

fn nested() -> Expr {
    Expr::Add(
        Box::new(Expr::IntLit(2)),
        Box::new(Expr::Sub(Box::new(Expr::IntLit(4)), Box::new(Expr::IntLit(1)))),
    )
}

fn describe(e: &Expr) -> String {
    match e {
        Expr::IntLit(v) => v.to_string(),
        Expr::Add(a, b) => format!("({} + {})", describe(a), describe(b)),
        Expr::Sub(a, b) => format!("({} - {})", describe(a), describe(b)),
    }
}

#[test]
fn test_renamer_on_let() {
    let stmt = Stmt::Let(Box::new(Name { value: "x".into() }), Box::new(Expr::IntLit(3)));
    let mut renamer = Renamer;
    if let Stmt::Let(n, e) = *renamer.fold_stmt(Box::new(stmt)) {
        assert_eq!(n.value, "foo");
        if let Expr::IntLit(v) = *e {
            assert_eq!(v, 3);
        } else {
            panic!("Expected IntLit");
        }
    } else {
        panic!("Expected Let statement");
    }
}

#[test]
fn test_renamer_on_nested_expr() {
    let stmt = Stmt::Expr(Box::new(nested()));
    let mut renamer = Renamer;
    let res = renamer.fold_stmt(Box::new(stmt));
    if let Stmt::Expr(e) = *res {
        assert!(matches!(*e, Expr::Add(_, _)));
    } else {
        panic!("Expected Expr statement");
    }
}

#[test]
fn renamer_keeps_literals_and_nesting() {
    let mut renamer = Renamer;
    let res = renamer.fold_stmt(Box::new(Stmt::Expr(Box::new(nested()))));
    match *res {
        Stmt::Expr(e) => assert_eq!(describe(&e), "(2 + (4 - 1))"),
        Stmt::Let(..) => panic!("Expected Expr statement"),
    }
}

#[test]
fn renamer_keeps_bound_value() {
    let stmt = Stmt::Let(Box::new(Name { value: "x".into() }), Box::new(nested()));
    let mut renamer = Renamer;
    match *renamer.fold_stmt(Box::new(stmt)) {
        Stmt::Let(n, e) => {
            assert_eq!(n.value, "foo");
            assert_eq!(describe(&e), "(2 + (4 - 1))");
        },
        Stmt::Expr(_) => panic!("Expected Let statement"),
    }
}

#[test]
fn identity_returns_same_tree() {
    let stmt = Stmt::Let(Box::new(Name { value: "x".into() }), Box::new(nested()));
    let mut id = Identity;
    match *id.fold_stmt(Box::new(stmt)) {
        Stmt::Let(n, e) => {
            assert_eq!(n.value, "x");
            assert_eq!(describe(&e), "(2 + (4 - 1))");
        },
        Stmt::Expr(_) => panic!("Expected Let statement"),
    }
}

#[test]
fn identity_twice_equals_once() {
    let mut id = Identity;
    let once = id.fold_stmt(Box::new(Stmt::Expr(Box::new(nested()))));
    let once_text = match &*once {
        Stmt::Expr(e) => describe(e),
        Stmt::Let(..) => panic!("Expected Expr statement"),
    };
    let twice = id.fold_stmt(once);
    match *twice {
        Stmt::Expr(e) => assert_eq!(describe(&e), once_text),
        Stmt::Let(..) => panic!("Expected Expr statement"),
    }
}

#[test]
fn recorder_sees_each_node_once() {
    let mut rec = KindRecorder::new();
    let stmt = Stmt::Let(Box::new(Name { value: "x".into() }), Box::new(nested()));
    let _ = rec.fold_stmt(Box::new(stmt));
    let _ = rec.fold_stmt(Box::new(Stmt::Expr(Box::new(Expr::IntLit(7)))));
    assert_eq!(
        rec.kinds,
        vec![
            NodeKind::Let,
            NodeKind::Name,
            NodeKind::Add,
            NodeKind::IntLit,
            NodeKind::Sub,
            NodeKind::IntLit,
            NodeKind::IntLit,
            NodeKind::ExprStmt,
            NodeKind::IntLit,
        ]
    );
}
