//! A rewriting pass over statements, driven by a policy whose three hooks
//! (names, expressions, statements) each rebuild the node they are handed.
use vstd::prelude::*;

pub mod ast;

use self::ast::{Expr, Name, Stmt};

verus! {

/// A rewrite policy.
///
/// Each hook consumes a node and returns its replacement. What a hook does is
/// described by a relation over the policy's state before the call, the node,
/// the state after the call and the returned node. The usual behaviour of
/// `fold_expr` and `fold_stmt` rebuilds the same variant from children that
/// were rewritten by the other hooks; a hook that does not recurse replaces
/// its whole subtree without visiting it. Each policy writes its three hooks
/// itself: [`Identity`] is the one that keeps every default (names unchanged,
/// expressions and statements rebuilt from their rewritten children).
pub trait Folder: Sized {
    /// From state `self`, `fold_name` may turn `n` into `r`, leaving the
    /// policy in state `post`.
    spec fn name_step(&self, n: Name, post: Self, r: Name) -> bool;

    /// From state `self`, `fold_expr` may turn `e` into `r`, leaving the
    /// policy in state `post`.
    spec fn expr_step(&self, e: Expr, post: Self, r: Expr) -> bool;

    /// From state `self`, `fold_stmt` may turn `s` into `r`, leaving the
    /// policy in state `post`.
    spec fn stmt_step(&self, s: Stmt, post: Self, r: Stmt) -> bool;

    fn fold_name(&mut self, n: Box<Name>) -> (r: Box<Name>)
        ensures
            old(self).name_step(*n, *final(self), *r),
    ;

    fn fold_expr(&mut self, e: Box<Expr>) -> (r: Box<Expr>)
        ensures
            old(self).expr_step(*e, *final(self), *r),
    ;

    fn fold_stmt(&mut self, s: Box<Stmt>) -> (r: Box<Stmt>)
        ensures
            old(self).stmt_step(*s, *final(self), *r),
    ;
}

/// The policy that overrides nothing: every hook keeps the structural
/// default, and names are returned as they are.
pub struct Identity;

impl Folder for Identity {
    open spec fn name_step(&self, n: Name, post: Self, r: Name) -> bool {
        post == *self && r == n
    }

    open spec fn expr_step(&self, e: Expr, post: Self, r: Expr) -> bool {
        post == *self && r == e
    }

    open spec fn stmt_step(&self, s: Stmt, post: Self, r: Stmt) -> bool {
        post == *self && r == s
    }

    fn fold_name(&mut self, n: Box<Name>) -> (r: Box<Name>) {
        n
    }

    fn fold_expr(&mut self, e: Box<Expr>) -> (r: Box<Expr>)
        decreases *e,
    {
        match *e {
            Expr::IntLit(v) => Box::new(Expr::IntLit(v)),
            Expr::Add(a, b) => Box::new(Expr::Add(self.fold_expr(a), self.fold_expr(b))),
            Expr::Sub(a, b) => Box::new(Expr::Sub(self.fold_expr(a), self.fold_expr(b))),
        }
    }

    fn fold_stmt(&mut self, s: Box<Stmt>) -> (r: Box<Stmt>) {
        match *s {
            Stmt::Expr(e) => Box::new(Stmt::Expr(self.fold_expr(e))),
            Stmt::Let(n, e) => Box::new(Stmt::Let(self.fold_name(n), self.fold_expr(e))),
        }
    }
}

/// `r` is `s` with the bound name, if any, replaced by `foo`: an expression
/// statement stays the same, a binding keeps its value.
pub open spec fn renamed(s: Stmt, r: Stmt) -> bool {
    match s {
        Stmt::Expr(e) => r == Stmt::Expr(e),
        Stmt::Let(_, e) => match r {
            Stmt::Let(rn, re) => rn.value@ == "foo"@ && re == e,
            _ => false,
        },
    }
}

/// The policy that renames every name to `foo` and keeps the structural
/// default everywhere else.
pub struct Renamer;

impl Folder for Renamer {
    open spec fn name_step(&self, n: Name, post: Self, r: Name) -> bool {
        post == *self && r.value@ == "foo"@
    }

    open spec fn expr_step(&self, e: Expr, post: Self, r: Expr) -> bool {
        post == *self && r == e
    }

    open spec fn stmt_step(&self, s: Stmt, post: Self, r: Stmt) -> bool {
        post == *self && renamed(s, r)
    }

    fn fold_name(&mut self, _n: Box<Name>) -> (r: Box<Name>) {
        Box::new(Name { value: "foo".to_owned() })
    }

    fn fold_expr(&mut self, e: Box<Expr>) -> (r: Box<Expr>)
        decreases *e,
    {
        match *e {
            Expr::IntLit(v) => Box::new(Expr::IntLit(v)),
            Expr::Add(a, b) => Box::new(Expr::Add(self.fold_expr(a), self.fold_expr(b))),
            Expr::Sub(a, b) => Box::new(Expr::Sub(self.fold_expr(a), self.fold_expr(b))),
        }
    }

    fn fold_stmt(&mut self, s: Box<Stmt>) -> (r: Box<Stmt>) {
        match *s {
            Stmt::Expr(e) => Box::new(Stmt::Expr(self.fold_expr(e))),
            Stmt::Let(n, e) => Box::new(Stmt::Let(self.fold_name(n), self.fold_expr(e))),
        }
    }
}

/// The kind of a node, as a policy that records its calls sees it.
#[derive(Clone, Copy, Debug, PartialEq, Eq, Structural)]
pub enum NodeKind {
    Name,
    IntLit,
    Add,
    Sub,
    ExprStmt,
    Let,
}

/// The kinds of the nodes of `e`, each node before its children, left child
/// before right.
pub open spec fn expr_kinds(e: Expr) -> Seq<NodeKind>
    decreases e,
{
    match e {
        Expr::IntLit(_) => seq![NodeKind::IntLit],
        Expr::Add(a, b) => seq![NodeKind::Add] + expr_kinds(*a) + expr_kinds(*b),
        Expr::Sub(a, b) => seq![NodeKind::Sub] + expr_kinds(*a) + expr_kinds(*b),
    }
}

/// The kinds of the nodes of `s`, in the order of [`expr_kinds`].
pub open spec fn stmt_kinds(s: Stmt) -> Seq<NodeKind> {
    match s {
        Stmt::Expr(e) => seq![NodeKind::ExprStmt] + expr_kinds(*e),
        Stmt::Let(_, e) => seq![NodeKind::Let, NodeKind::Name] + expr_kinds(*e),
    }
}

/// The number of nodes in `e`.
pub open spec fn expr_size(e: Expr) -> nat
    decreases e,
{
    match e {
        Expr::IntLit(_) => 1,
        Expr::Add(a, b) => 1 + expr_size(*a) + expr_size(*b),
        Expr::Sub(a, b) => 1 + expr_size(*a) + expr_size(*b),
    }
}

/// The number of nodes in `s`, its name included.
pub open spec fn stmt_size(s: Stmt) -> nat {
    match s {
        Stmt::Expr(e) => 1 + expr_size(*e),
        Stmt::Let(_, e) => 2 + expr_size(*e),
    }
}

/// A policy that keeps every tree as it is and appends to `kinds` the kind
/// of each node that a hook is asked to rewrite.
pub struct KindRecorder {
    pub kinds: Vec<NodeKind>,
}

impl KindRecorder {
    pub fn new() -> (r: Self)
        ensures
            r.kinds@ == Seq::<NodeKind>::empty(),
    {
        KindRecorder { kinds: Vec::new() }
    }
}

impl Folder for KindRecorder {
    open spec fn name_step(&self, n: Name, post: Self, r: Name) -> bool {
        post.kinds@ == self.kinds@.push(NodeKind::Name) && r == n
    }

    open spec fn expr_step(&self, e: Expr, post: Self, r: Expr) -> bool {
        post.kinds@ == self.kinds@ + expr_kinds(e) && r == e
    }

    open spec fn stmt_step(&self, s: Stmt, post: Self, r: Stmt) -> bool {
        post.kinds@ == self.kinds@ + stmt_kinds(s) && r == s
    }

    fn fold_name(&mut self, n: Box<Name>) -> (r: Box<Name>) {
        self.kinds.push(NodeKind::Name);
        n
    }

    fn fold_expr(&mut self, e: Box<Expr>) -> (r: Box<Expr>)
        decreases *e,
    {
        let ghost before = self.kinds@;
        match *e {
            Expr::IntLit(v) => {
                self.kinds.push(NodeKind::IntLit);
                assert(self.kinds@ =~= before + expr_kinds(*e));
                Box::new(Expr::IntLit(v))
            },
            Expr::Add(a, b) => {
                self.kinds.push(NodeKind::Add);
                let ra = self.fold_expr(a);
                let rb = self.fold_expr(b);
                assert(self.kinds@ =~= before + expr_kinds(*e));
                Box::new(Expr::Add(ra, rb))
            },
            Expr::Sub(a, b) => {
                self.kinds.push(NodeKind::Sub);
                let ra = self.fold_expr(a);
                let rb = self.fold_expr(b);
                assert(self.kinds@ =~= before + expr_kinds(*e));
                Box::new(Expr::Sub(ra, rb))
            },
        }
    }

    fn fold_stmt(&mut self, s: Box<Stmt>) -> (r: Box<Stmt>) {
        let ghost before = self.kinds@;
        match *s {
            Stmt::Expr(e) => {
                self.kinds.push(NodeKind::ExprStmt);
                let re = self.fold_expr(e);
                assert(self.kinds@ =~= before + stmt_kinds(*s));
                Box::new(Stmt::Expr(re))
            },
            Stmt::Let(n, e) => {
                self.kinds.push(NodeKind::Let);
                let rn = self.fold_name(n);
                let re = self.fold_expr(e);
                assert(self.kinds@ =~= before + stmt_kinds(*s));
                Box::new(Stmt::Let(rn, re))
            },
        }
    }
}

/// The expression that a statement holds.
pub open spec fn stmt_value(s: Stmt) -> Expr {
    match s {
        Stmt::Expr(e) => *e,
        Stmt::Let(_, e) => *e,
    }
}

/// Rewriting a statement with the policy that overrides nothing gives back
/// the same statement: same variants, same literals, same name.
pub proof fn lemma_identity_keeps_tree(s: Stmt, post: Identity, r: Stmt)
    requires
        Identity.stmt_step(s, post, r),
    ensures
        r == s,
{
}

/// Rewriting with the policy that overrides nothing, and then once more,
/// gives what the first rewrite gave.
pub proof fn lemma_identity_idempotent(s: Stmt, p1: Identity, r1: Stmt, p2: Identity, r2: Stmt)
    requires
        Identity.stmt_step(s, p1, r1),
        p1.stmt_step(r1, p2, r2),
    ensures
        r2 == r1,
{
}

/// Under `Renamer` a statement keeps its variant and its whole expression;
/// only the name of a binding changes.
pub proof fn lemma_renamer_keeps_shape(s: Stmt, post: Renamer, r: Stmt)
    requires
        Renamer.stmt_step(s, post, r),
    ensures
        (r is Expr) == (s is Expr),
        (r is Let) == (s is Let),
        stmt_value(r) == stmt_value(s),
{
}

/// An expression has as many recorded kinds as it has nodes.
pub proof fn lemma_expr_kinds_len(e: Expr)
    ensures
        expr_kinds(e).len() == expr_size(e),
    decreases e,
{
    match e {
        Expr::IntLit(_) => {},
        Expr::Add(a, b) => {
            lemma_expr_kinds_len(*a);
            lemma_expr_kinds_len(*b);
        },
        Expr::Sub(a, b) => {
            lemma_expr_kinds_len(*a);
            lemma_expr_kinds_len(*b);
        },
    }
}

/// A recording policy that rewrites a statement is asked about each node of
/// it exactly once: it records one kind per node, in the order of
/// [`stmt_kinds`], after what it held before.
pub proof fn lemma_one_call_per_node(start: KindRecorder, s: Stmt, post: KindRecorder, r: Stmt)
    requires
        start.stmt_step(s, post, r),
    ensures
        post.kinds@.len() == start.kinds@.len() + stmt_size(s),
        post.kinds@.subrange(0, start.kinds@.len() as int) == start.kinds@,
        post.kinds@.subrange(start.kinds@.len() as int, post.kinds@.len() as int) == stmt_kinds(s),
{
    lemma_expr_kinds_len(stmt_value(s));
    assert(post.kinds@.subrange(0, start.kinds@.len() as int) =~= start.kinds@);
    assert(post.kinds@.subrange(start.kinds@.len() as int, post.kinds@.len() as int) =~= stmt_kinds(s));
}

} // verus!
