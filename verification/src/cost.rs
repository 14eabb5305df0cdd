//! What it costs to negate an expression.

use crate::negate::{
    is_equality, is_logical, is_ok_to_negate_for_cond, is_ok_to_negate_rhs, ok_to_negate_for_cond,
    ok_to_negate_rhs,
};
use crate::syntax::{
    BinaryOp, Expr, ExprOrSuper, ExprOrSuperView, ExprView, LeafKind, LeafKindView, UnaryOp,
};
use vstd::prelude::*;

verus! {

/// Whether `e` calls a function expression on the spot, as in `function () {..}()`.
pub open spec fn calls_fn_expr(e: ExprView) -> bool {
    e matches ExprView::Call { callee: ExprOrSuperView::Expr(callee), .. } && (
    *callee matches ExprView::Leaf { kind: LeafKindView::Fn { .. }, .. })
}

/// The cost of an expression that is negated by a `!` in front, which is `cost` unless nobody
/// reads the value.
pub open spec fn unless_ignored(is_ret_val_ignored: bool, cost: int) -> int {
    if is_ret_val_ignored {
        0
    } else {
        cost
    }
}

/// The cost of negating `e`; below 0 where the negation is the shorter one.
pub open spec fn cost_of_negation(e: ExprView, in_bool_ctx: bool, is_ret_val_ignored: bool) -> int
    decreases e,
{
    match e {
        ExprView::Unary { op: UnaryOp::Bang, arg, .. } => if calls_fn_expr(*arg) {
            0
        } else if in_bool_ctx {
            let inner = cost_of_negation(*arg, true, is_ret_val_ignored);
            if inner > 1 {
                -inner
            } else {
                -1
            }
        } else if *arg matches ExprView::Unary { op: UnaryOp::Bang, .. } {
            -1
        } else {
            1
        },
        ExprView::Bin { op, left, right, .. } => if is_equality(op) {
            0
        } else if is_logical(op) {
            cost_of_negation(*left, in_bool_ctx, false) + if is_ret_val_ignored || ok_to_negate_rhs(
                *right,
            ) {
                cost_of_negation(*right, in_bool_ctx, is_ret_val_ignored)
            } else {
                3
            }
        } else if op == BinaryOp::In || op == BinaryOp::InstanceOf {
            3
        } else {
            unless_ignored(is_ret_val_ignored, 1)
        },
        ExprView::Cond { cons, alt, .. } => if ok_to_negate_for_cond(*cons)
            && ok_to_negate_for_cond(*alt) {
            cost_of_negation(*cons, in_bool_ctx, is_ret_val_ignored) + cost_of_negation(
                *alt,
                in_bool_ctx,
                is_ret_val_ignored,
            )
        } else {
            3
        },
        ExprView::Leaf { kind: LeafKindView::Update, .. } => 3,
        ExprView::Assign { .. } => unless_ignored(is_ret_val_ignored, 3),
        ExprView::Sequence { exprs, .. } => if exprs.len() > 0 {
            cost_of_negation(exprs[exprs.len() - 1], in_bool_ctx, is_ret_val_ignored)
        } else {
            unless_ignored(is_ret_val_ignored, 1)
        },
        _ => unless_ignored(is_ret_val_ignored, 1),
    }
}

/// The number of nodes on which the cost of negating `e` can depend.
pub open spec fn weight(e: ExprView) -> nat
    decreases e,
{
    match e {
        ExprView::Unary { arg, .. } => 1 + weight(*arg),
        ExprView::Bin { left, right, .. } => 1 + weight(*left) + weight(*right),
        ExprView::Cond { cons, alt, .. } => 1 + weight(*cons) + weight(*alt),
        ExprView::Sequence { exprs, .. } => if exprs.len() > 0 {
            1 + weight(exprs[exprs.len() - 1])
        } else {
            1
        },
        _ => 1,
    }
}

/// Every node adds or removes at most 3.
pub proof fn lemma_cost_bounded(e: ExprView, in_bool_ctx: bool, is_ret_val_ignored: bool)
    ensures
        -3 * weight(e) <= cost_of_negation(e, in_bool_ctx, is_ret_val_ignored) <= 3 * weight(e),
        weight(e) >= 1,
    decreases e,
{
    match e {
        ExprView::Unary { arg, .. } => {
            lemma_cost_bounded(*arg, true, is_ret_val_ignored);
        },
        ExprView::Bin { left, right, .. } => {
            lemma_cost_bounded(*left, in_bool_ctx, false);
            lemma_cost_bounded(*right, in_bool_ctx, is_ret_val_ignored);
        },
        ExprView::Cond { cons, alt, .. } => {
            lemma_cost_bounded(*cons, in_bool_ctx, is_ret_val_ignored);
            lemma_cost_bounded(*alt, in_bool_ctx, is_ret_val_ignored);
        },
        ExprView::Sequence { exprs, .. } => {
            if exprs.len() > 0 {
                lemma_cost_bounded(exprs[exprs.len() - 1], in_bool_ctx, is_ret_val_ignored);
            }
        },
        _ => {},
    }
}

/// Whether `e` calls a function expression on the spot.
fn is_fn_expr_call(e: &Expr) -> (r: bool)
    ensures
        r == calls_fn_expr(e@),
{
    match e {
        Expr::Call(call) => match &call.callee {
            ExprOrSuper::Expr(callee) => {
                assert(call.callee@ == ExprOrSuperView::Expr(Box::new(callee@)));
                match &**callee {
                    Expr::Leaf(leaf) => match leaf.kind() {
                        LeafKind::Fn { .. } => true,
                        _ => false,
                    },
                    _ => false,
                }
            },
            ExprOrSuper::Super(_) => false,
        },
        _ => false,
    }
}

/// Whether `e` is of the form `!x`.
fn is_bang(e: &Expr) -> (r: bool)
    ensures
        r == (e@ matches ExprView::Unary { op: UnaryOp::Bang, .. }),
{
    match e {
        Expr::Unary(e) => e.op == UnaryOp::Bang,
        _ => false,
    }
}

/// The cost of negating `e`.
fn cost(e: &Expr, in_bool_ctx: bool, is_ret_val_ignored: bool) -> (r: isize)
    requires
        3 * weight(e@) <= isize::MAX,
    ensures
        r == cost_of_negation(e@, in_bool_ctx, is_ret_val_ignored),
    decreases e,
{
    proof {
        lemma_cost_bounded(e@, in_bool_ctx, is_ret_val_ignored);
    }
    let plain: isize = if is_ret_val_ignored {
        0
    } else {
        1
    };
    match e {
        Expr::Unary(unary) => {
            if unary.op != UnaryOp::Bang {
                return plain;
            }
            if is_fn_expr_call(&unary.arg) {
                return 0;
            }
            if in_bool_ctx {
                proof {
                    lemma_cost_bounded(unary.arg@, true, is_ret_val_ignored);
                }
                let c: isize = -cost(&unary.arg, true, is_ret_val_ignored);
                return if c < -1 {
                    c
                } else {
                    -1
                };
            }
            if is_bang(&unary.arg) {
                -1
            } else {
                1
            }
        },
        Expr::Bin(bin) => match bin.op {
            BinaryOp::EqEq | BinaryOp::NotEq | BinaryOp::EqEqEq | BinaryOp::NotEqEq => 0,
            BinaryOp::LogicalOr | BinaryOp::LogicalAnd => {
                proof {
                    lemma_cost_bounded(bin.left@, in_bool_ctx, false);
                    lemma_cost_bounded(bin.right@, in_bool_ctx, is_ret_val_ignored);
                }
                let l_cost: isize = cost(&bin.left, in_bool_ctx, false);
                if !is_ret_val_ignored && !is_ok_to_negate_rhs(&bin.right) {
                    return l_cost + 3;
                }
                l_cost + cost(&bin.right, in_bool_ctx, is_ret_val_ignored)
            },
            BinaryOp::In | BinaryOp::InstanceOf => 3,
            _ => plain,
        },
        Expr::Cond(cond) => {
            if is_ok_to_negate_for_cond(&cond.cons) && is_ok_to_negate_for_cond(&cond.alt) {
                proof {
                    lemma_cost_bounded(cond.cons@, in_bool_ctx, is_ret_val_ignored);
                    lemma_cost_bounded(cond.alt@, in_bool_ctx, is_ret_val_ignored);
                }
                cost(&cond.cons, in_bool_ctx, is_ret_val_ignored) + cost(
                    &cond.alt,
                    in_bool_ctx,
                    is_ret_val_ignored,
                )
            } else {
                3
            }
        },
        Expr::Assign(_) => if is_ret_val_ignored {
            0
        } else {
            3
        },
        Expr::Sequence(seq) => {
            let n = seq.exprs.len();
            if n > 0 {
                assert(decreases_to!(seq.exprs => seq.exprs[n - 1]));
                return cost(&seq.exprs[n - 1], in_bool_ctx, is_ret_val_ignored);
            }
            plain
        },
        Expr::Leaf(leaf) => match leaf.kind() {
            LeafKind::Update => 3,
            _ => plain,
        },
        _ => plain,
    }
}

/// The weight of `e`, if it is at most `limit`.
fn weight_up_to(e: &Expr, limit: usize) -> (r: Option<usize>)
    ensures
        r is Some == (weight(e@) <= limit),
        r is Some ==> r->0 == weight(e@),
    decreases e,
{
    if limit == 0 {
        return None;
    }
    let rest: usize = limit - 1;
    match e {
        Expr::Unary(unary) => {
            let arg: usize = weight_up_to(&unary.arg, rest)?;
            Some(1 + arg)
        },
        Expr::Bin(bin) => {
            let left: usize = weight_up_to(&bin.left, rest)?;
            let right: usize = weight_up_to(&bin.right, rest - left)?;
            Some(1 + left + right)
        },
        Expr::Cond(cond) => {
            let cons: usize = weight_up_to(&cond.cons, rest)?;
            let alt: usize = weight_up_to(&cond.alt, rest - cons)?;
            Some(1 + cons + alt)
        },
        Expr::Sequence(seq) => {
            let n = seq.exprs.len();
            if n > 0 {
                assert(decreases_to!(seq.exprs => seq.exprs[n - 1]));
                let last: usize = weight_up_to(&seq.exprs[n - 1], rest)?;
                Some(1 + last)
            } else {
                Some(1)
            }
        },
        _ => Some(1),
    }
}

/// Whether [`negate_cost`] can be asked about `e`: whether every cost that can come up fits in an
/// `isize`.
pub fn has_bounded_cost(e: &Expr) -> (r: bool)
    ensures
        r == (3 * weight(e@) <= isize::MAX),
{
    let max: isize = isize::MAX / 3;
    weight_up_to(e, max as usize).is_some()
}

/// The cost of negating `e`. A negative value means that it is efficient to negate it.
///
/// `in_bool_ctx` tells that only the truth of `e` counts, `is_ret_val_ignored` that nobody reads
/// its value.
pub fn negate_cost(e: &Expr, in_bool_ctx: bool, is_ret_val_ignored: bool) -> (r: Option<isize>)
    requires
        3 * weight(e@) <= isize::MAX,
    ensures
        r is Some,
        r->0 == cost_of_negation(e@, in_bool_ctx, is_ret_val_ignored),
{
    Some(cost(e, in_bool_ctx, is_ret_val_ignored))
}

}
