//! What an expression does beside giving a value.

use crate::outside::{ast_may_have_side_effects, ast_uses_ident, ident_used};
use crate::syntax::{Expr, ExprOrSuperView, ExprView, LeafKindView};
use swc_common::SyntaxContext;
use vstd::prelude::*;

verus! {

/// The name of a variable together with the syntax context that tells it from others so named.
pub struct Id {
    pub sym: String,
    pub ctxt: SyntaxContext,
}

/// `Math`, as an object.
pub open spec fn is_math(obj: ExprOrSuperView) -> bool {
    obj matches ExprOrSuperView::Expr(e) && (*e matches ExprView::Ident { sym, .. } && sym
        == "Math"@)
}

/// Whether calling `e` does nothing beyond evaluating the arguments: `Date`, the members of
/// `Math`, and function expressions with nothing in them.
pub open spec fn is_pure_callee(e: ExprView) -> bool {
    match e {
        ExprView::Ident { sym, .. } => sym == "Date"@,
        ExprView::Member { obj, .. } => is_math(obj),
        ExprView::Leaf { kind: LeafKindView::Fn { is_pure_callee }, .. } => is_pure_callee,
        _ => false,
    }
}

/// Whether evaluating `e` may do more than give a value. Members count, but for those of `Math`,
/// since reading one can run a getter.
pub open spec fn has_effects(e: ExprView) -> bool
    decreases e,
{
    match e {
        ExprView::Ident { .. } => false,
        ExprView::Member { obj, .. } => !is_math(obj),
        ExprView::Assign { .. } => true,
        ExprView::Unary { arg, .. } => has_effects(*arg),
        ExprView::Bin { left, right, .. } => has_effects(*left) || has_effects(*right),
        ExprView::Cond { test, cons, alt, .. } => has_effects(*test) || has_effects(*cons)
            || has_effects(*alt),
        ExprView::Sequence { exprs, .. } => exists|i: int|
            0 <= i < exprs.len() && has_effects(#[trigger] exprs[i]),
        ExprView::Call { callee, args, .. } => match callee {
            ExprOrSuperView::Expr(callee) => !is_pure_callee(*callee) || exists|i: int|
                0 <= i < args.len() && has_effects((#[trigger] args[i]).expr),
            ExprOrSuperView::Super(_) => true,
        },
        ExprView::Leaf { kind, .. } => match kind {
            LeafKindView::Fn { .. } | LeafKindView::Str(_) | LeafKindView::Null
            | LeafKindView::Lit => false,
            LeafKindView::Update | LeafKindView::New => true,
            LeafKindView::Other { has_effects } => has_effects,
        },
    }
}

impl Expr {
    /// Whether evaluating the expression may do more than give a value.
    pub fn may_have_side_effects(&self) -> (r: bool)
        ensures
            r == has_effects(self@),
    {
        let ast = self.to_ast();
        ast_may_have_side_effects(&ast)
    }
}

/// Whether the variable `id` is used in `node`.
pub fn is_ident_used_by(id: Id, node: &Expr) -> (r: bool)
    ensures
        r == ident_used(id.sym@, id.ctxt, node@),
{
    let ast = node.to_ast();
    ast_uses_ident(id.sym.as_str(), id.ctxt, &ast)
}

}
