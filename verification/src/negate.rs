//! Negating an expression.

use crate::effects::has_effects;
use crate::outside::{new_span, span_at};
use crate::syntax::{BinaryOp, Expr, ExprView, LeafKind, LeafKindView, SeqExpr, UnaryExpr, UnaryOp};
use vstd::prelude::*;

verus! {

/// `==`, `!=`, `===` and `!==`
pub open spec fn is_equality(op: BinaryOp) -> bool {
    op == BinaryOp::EqEq || op == BinaryOp::NotEq || op == BinaryOp::EqEqEq || op
        == BinaryOp::NotEqEq
}

/// `&&` and `||`
pub open spec fn is_logical(op: BinaryOp) -> bool {
    op == BinaryOp::LogicalAnd || op == BinaryOp::LogicalOr
}

/// The operator that holds exactly where `op` does not: an equality for its opposite, and `&&`
/// for `||` on negated operands.
pub open spec fn opposite(op: BinaryOp) -> BinaryOp {
    match op {
        BinaryOp::EqEq => BinaryOp::NotEq,
        BinaryOp::NotEq => BinaryOp::EqEq,
        BinaryOp::EqEqEq => BinaryOp::NotEqEq,
        BinaryOp::NotEqEq => BinaryOp::EqEqEq,
        BinaryOp::LogicalAnd => BinaryOp::LogicalOr,
        BinaryOp::LogicalOr => BinaryOp::LogicalAnd,
        op => op,
    }
}

/// Whether a branch of a conditional may be negated in place: all but `++` and `--`.
pub open spec fn ok_to_negate_for_cond(e: ExprView) -> bool {
    !(e matches ExprView::Leaf { kind: LeafKindView::Update, .. })
}

/// Whether the right operand of `&&` or `||` may be negated in place.
pub open spec fn ok_to_negate_rhs(rhs: ExprView) -> bool
    decreases rhs,
{
    match rhs {
        ExprView::Member { .. } => true,
        ExprView::Bin { op, left, right, .. } => is_equality(op) || (ok_to_negate_rhs(*left)
            && ok_to_negate_rhs(*right)),
        ExprView::Call { .. } => false,
        ExprView::Leaf { kind: LeafKindView::New, .. } => false,
        ExprView::Leaf { kind: LeafKindView::Update, .. } => false,
        ExprView::Assign { right, .. } => ok_to_negate_rhs(*right),
        ExprView::Unary { op: UnaryOp::Bang, .. } => true,
        ExprView::Unary { op: UnaryOp::Delete, .. } => true,
        ExprView::Sequence { exprs, .. } => exprs.len() == 0 || ok_to_negate_rhs(
            exprs[exprs.len() - 1],
        ),
        ExprView::Cond { cons, alt, .. } => ok_to_negate_rhs(*cons) && ok_to_negate_rhs(*alt),
        ExprView::Ident { .. } | ExprView::Leaf { .. } | ExprView::Unary { .. } => !has_effects(
            rhs,
        ),
    }
}

/// Whether the operand of a `!` always gives a boolean by its form: a further `!`, `in` or
/// `instanceof`.
pub open spec fn is_boolean_operand(e: ExprView) -> bool {
    match e {
        ExprView::Unary { op, .. } => op == UnaryOp::Bang,
        ExprView::Bin { op, .. } => op == BinaryOp::In || op == BinaryOp::InstanceOf,
        _ => false,
    }
}

/// `!e`, as it stands.
pub open spec fn bang(e: ExprView) -> ExprView {
    ExprView::Unary { span: span_at(0, 0), op: UnaryOp::Bang, arg: Box::new(e) }
}

/// The negation of `e` that [`negate`] writes. Where `in_bool_ctx` is set, only the truth of the
/// result counts.
pub open spec fn negated(e: ExprView, in_bool_ctx: bool) -> ExprView
    decreases e,
{
    match e {
        ExprView::Bin { span, op, left, right } => if is_equality(op) {
            ExprView::Bin { span, op: opposite(op), left, right }
        } else if is_logical(op) && ok_to_negate_rhs(*right) {
            ExprView::Bin {
                span,
                op: opposite(op),
                left: Box::new(negated(*left, in_bool_ctx)),
                right: Box::new(negated(*right, in_bool_ctx)),
            }
        } else {
            bang(e)
        },
        ExprView::Cond { span, test, cons, alt } => if ok_to_negate_for_cond(*cons)
            && ok_to_negate_for_cond(*alt) {
            ExprView::Cond {
                span,
                test,
                cons: Box::new(negated(*cons, in_bool_ctx)),
                alt: Box::new(negated(*alt, in_bool_ctx)),
            }
        } else {
            bang(e)
        },
        ExprView::Sequence { span, exprs } => if exprs.len() > 0 {
            ExprView::Sequence {
                span,
                exprs: exprs.update(
                    exprs.len() - 1,
                    negated(exprs[exprs.len() - 1], in_bool_ctx),
                ),
            }
        } else {
            bang(e)
        },
        ExprView::Unary { op, arg, .. } => if op == UnaryOp::Bang && (in_bool_ctx
            || is_boolean_operand(*arg)) {
            *arg
        } else {
            bang(e)
        },
        _ => bang(e),
    }
}

/// Whether the branch `e` of a conditional may be negated in place.
pub fn is_ok_to_negate_for_cond(e: &Expr) -> (r: bool)
    ensures
        r == ok_to_negate_for_cond(e@),
{
    match e {
        Expr::Leaf(leaf) => match leaf.kind() {
            LeafKind::Update => false,
            _ => true,
        },
        _ => true,
    }
}

/// Whether the right operand `rhs` of `&&` or `||` may be negated in place.
pub fn is_ok_to_negate_rhs(rhs: &Expr) -> (r: bool)
    ensures
        r == ok_to_negate_rhs(rhs@),
    decreases rhs,
{
    match rhs {
        Expr::Member(_) => true,
        Expr::Bin(e) => match e.op {
            BinaryOp::EqEq | BinaryOp::NotEq | BinaryOp::EqEqEq | BinaryOp::NotEqEq => true,
            _ => is_ok_to_negate_rhs(&e.left) && is_ok_to_negate_rhs(&e.right),
        },
        Expr::Call(_) => false,
        Expr::Assign(e) => is_ok_to_negate_rhs(&e.right),
        Expr::Unary(e) => match e.op {
            UnaryOp::Bang | UnaryOp::Delete => true,
            _ => !rhs.may_have_side_effects(),
        },
        Expr::Sequence(e) => {
            let n = e.exprs.len();
            if n > 0 {
                assert(decreases_to!(e.exprs => e.exprs[n - 1]));
                is_ok_to_negate_rhs(&e.exprs[n - 1])
            } else {
                true
            }
        },
        Expr::Cond(e) => is_ok_to_negate_rhs(&e.cons) && is_ok_to_negate_rhs(&e.alt),
        Expr::Leaf(leaf) => match leaf.kind() {
            LeafKind::New | LeafKind::Update => false,
            _ => !rhs.may_have_side_effects(),
        },
        Expr::Ident(_) => !rhs.may_have_side_effects(),
    }
}

/// Whether `e`, as the operand of a `!`, always gives a boolean by its form.
fn gives_boolean(e: &Expr) -> (r: bool)
    ensures
        r == is_boolean_operand(e@),
{
    match e {
        Expr::Unary(e) => e.op == UnaryOp::Bang,
        Expr::Bin(e) => e.op == BinaryOp::In || e.op == BinaryOp::InstanceOf,
        _ => false,
    }
}

/// Replaces `e` by its negation. Where `in_bool_ctx` is set, only the truth of the result counts.
///
/// `!!e` becomes `!e`.
pub fn negate(e: &mut Expr, in_bool_ctx: bool)
    ensures
        final(e)@ == negated(old(e)@, in_bool_ctx),
    decreases *old(e),
{
    match e {
        Expr::Bin(bin) => {
            match bin.op {
                BinaryOp::EqEq => {
                    bin.op = BinaryOp::NotEq;
                    return ;
                },
                BinaryOp::NotEq => {
                    bin.op = BinaryOp::EqEq;
                    return ;
                },
                BinaryOp::EqEqEq => {
                    bin.op = BinaryOp::NotEqEq;
                    return ;
                },
                BinaryOp::NotEqEq => {
                    bin.op = BinaryOp::EqEqEq;
                    return ;
                },
                BinaryOp::LogicalAnd => if is_ok_to_negate_rhs(&bin.right) {
                    negate(&mut bin.left, in_bool_ctx);
                    negate(&mut bin.right, in_bool_ctx);
                    bin.op = BinaryOp::LogicalOr;
                    return ;
                },
                BinaryOp::LogicalOr => if is_ok_to_negate_rhs(&bin.right) {
                    negate(&mut bin.left, in_bool_ctx);
                    negate(&mut bin.right, in_bool_ctx);
                    bin.op = BinaryOp::LogicalAnd;
                    return ;
                },
                _ => {},
            }
        },
        Expr::Cond(cond) => if is_ok_to_negate_for_cond(&cond.cons) && is_ok_to_negate_for_cond(
            &cond.alt,
        ) {
            negate(&mut cond.cons, in_bool_ctx);
            negate(&mut cond.alt, in_bool_ctx);
            return ;
        },
        Expr::Sequence(seq) => {
            let n = seq.exprs.len();
            if n > 0 {
                negate(&mut seq.exprs[n - 1], in_bool_ctx);
                proof {
                    let before = old(e)@->exprs;
                    assert(Expr::Sequence(*seq)@->exprs =~= before.update(
                        n - 1,
                        negated(before[n - 1], in_bool_ctx),
                    ));
                }
                return ;
            }
        },
        _ => {},
    }
    let span = new_span(0, 0);
    let mut arg = Expr::Sequence(SeqExpr { span, exprs: Vec::new() });
    std::mem::swap(e, &mut arg);
    let is_removable = match &arg {
        Expr::Unary(unary) => unary.op == UnaryOp::Bang && (in_bool_ctx || gives_boolean(
            &unary.arg,
        )),
        _ => false,
    };
    *e = match arg {
        Expr::Unary(unary) if is_removable => *unary.arg,
        arg => Expr::Unary(UnaryExpr { span, op: UnaryOp::Bang, arg: Box::new(arg) }),
    };
}

}
