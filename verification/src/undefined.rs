//! Expressions that are `undefined` or `null` whatever happens.

use crate::effects::has_effects;
use crate::syntax::{Expr, ExprView, LeafKind, LeafKindView, UnaryOp};
use crate::text::same;
use vstd::prelude::*;

verus! {

/// `undefined`, or `void` in front of something without side effects.
pub open spec fn pure_undefined(e: ExprView) -> bool {
    match e {
        ExprView::Ident { sym, .. } => sym == "undefined"@,
        ExprView::Unary { op, arg, .. } => op == UnaryOp::Void && !has_effects(*arg),
        _ => false,
    }
}

/// What is [`pure_undefined`], or `null`.
pub open spec fn pure_undefined_or_null(e: ExprView) -> bool {
    pure_undefined(e) || (e matches ExprView::Leaf { kind: LeafKindView::Null, .. })
}

/// Whether `e` gives `undefined` and does nothing else.
pub fn is_pure_undefined(e: &Expr) -> (r: bool)
    ensures
        r == pure_undefined(e@),
{
    match e {
        Expr::Ident(ident) => same(ident.sym.as_str(), "undefined"),
        Expr::Unary(unary) => unary.op == UnaryOp::Void && !unary.arg.may_have_side_effects(),
        _ => false,
    }
}

/// Whether `e` gives `undefined` and does nothing else, or is `null`.
pub fn is_pure_undefined_or_null(e: &Expr) -> (r: bool)
    ensures
        r == pure_undefined_or_null(e@),
        r == (pure_undefined(e@) || (e@ matches ExprView::Leaf { kind: LeafKindView::Null, .. })),
{
    is_pure_undefined(e) || match e {
        Expr::Leaf(leaf) => match leaf.kind() {
            LeafKind::Null => true,
            _ => false,
        },
        _ => false,
    }
}

}
