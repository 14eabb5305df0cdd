//! Statements, as far as the control flow through them is asked for.

use crate::syntax::{Expr, ExprView, LeafKind, LeafKindView};
use crate::text::starts_with;
use vstd::prelude::*;

verus! {

/// A statement.
pub enum Stmt {
    Return,
    Throw,
    Break,
    Continue,
    If(IfStmt),
    Block(BlockStmt),
    Expr(ExprStmt),
    /// Any other statement.
    Other,
}

/// `if (..) cons else alt`
pub struct IfStmt {
    pub cons: Box<Stmt>,
    pub alt: Option<Box<Stmt>>,
}

/// `{ stmts }`
pub struct BlockStmt {
    pub stmts: Vec<Stmt>,
}

/// `expr;`
pub struct ExprStmt {
    pub expr: Expr,
}

/// The view of a [`Stmt`].
pub enum StmtView {
    Return,
    Throw,
    Break,
    Continue,
    If { cons: Box<StmtView>, alt: Option<Box<StmtView>> },
    Block { stmts: Seq<StmtView> },
    Expr { expr: ExprView },
    Other,
}

impl Stmt {
    pub open spec fn view(self) -> StmtView
        decreases self,
    {
        match self {
            Stmt::Return => StmtView::Return,
            Stmt::Throw => StmtView::Throw,
            Stmt::Break => StmtView::Break,
            Stmt::Continue => StmtView::Continue,
            Stmt::If(s) => StmtView::If {
                cons: Box::new(s.cons.view()),
                alt: match s.alt {
                    Some(alt) => Some(Box::new(alt.view())),
                    None => None,
                },
            },
            Stmt::Block(s) => StmtView::Block {
                stmts: Seq::new(
                    s.stmts@.len(),
                    |i: int|
                        if 0 <= i < s.stmts@.len() {
                            s.stmts@[i].view()
                        } else {
                            arbitrary()
                        },
                ),
            },
            Stmt::Expr(s) => StmtView::Expr { expr: s.expr@ },
            Stmt::Other => StmtView::Other,
        }
    }
}

/// Whether `s` is a directive such as `"use strict"`.
pub open spec fn directive(s: StmtView) -> bool {
    s matches StmtView::Expr { expr: ExprView::Leaf { kind: LeafKindView::Str(value), .. } }
        && "use "@.is_prefix_of(value)
}

/// Whether control never reaches the end of `s`: it jumps away in both branches of an `if`, or in
/// some statement of a block.
pub open spec fn terminates(s: StmtView) -> bool
    decreases s,
{
    match s {
        StmtView::Return | StmtView::Throw | StmtView::Break | StmtView::Continue => true,
        StmtView::If { cons, alt } => terminates(*cons) && match alt {
            Some(alt) => terminates(*alt),
            None => false,
        },
        StmtView::Block { stmts } => exists|i: int|
            0 <= i < stmts.len() && terminates(#[trigger] stmts[i]),
        StmtView::Expr { .. } | StmtView::Other => false,
    }
}

/// Whether `s` is a directive such as `"use strict"`.
pub fn is_directive(s: &Stmt) -> (r: bool)
    ensures
        r == directive(s@),
{
    match s {
        Stmt::Expr(s) => match &s.expr {
            Expr::Leaf(leaf) => match leaf.kind() {
                LeafKind::Str(value) => starts_with(value.as_str(), "use "),
                _ => false,
            },
            _ => false,
        },
        _ => false,
    }
}

/// Whether control never reaches the end of `s`.
pub fn always_terminates(s: &Stmt) -> (r: bool)
    ensures
        r == terminates(s@),
    decreases s,
{
    match s {
        Stmt::Return | Stmt::Throw | Stmt::Break | Stmt::Continue => true,
        Stmt::If(if_stmt) => always_terminates(&if_stmt.cons) && match &if_stmt.alt {
            Some(alt) => always_terminates(alt),
            None => false,
        },
        Stmt::Block(block) => {
            let mut i: usize = 0;
            while i < block.stmts.len()
                invariant
                    *s == Stmt::Block(*block),
                    i <= block.stmts.len(),
                    forall|j: int| 0 <= j < i ==> !terminates(#[trigger] s@->stmts[j]),
                decreases block.stmts.len() - i,
            {
                assert(decreases_to!(*s => s->Block_0));
                assert(s@->stmts[i as int] == block.stmts[i as int]@);
                if always_terminates(&block.stmts[i]) {
                    return true;
                }
                i += 1;
            }
            false
        },
        Stmt::Expr(_) | Stmt::Other => false,
    }
}

}
