//! What it costs to negate each form of expression, and how that compares with the negation.

use crate::cost::{cost_of_negation, weight};
use crate::negate::{negated, ok_to_negate_rhs};
use crate::syntax::{BinaryOp, ExprOrSuperView, ExprView, LeafKindView, UnaryOp};
use vstd::prelude::*;

verus! {

/// An expression in front of which negation can only put a `!` costs 1, or nothing where its value
/// is ignored, in either context: it never pays to negate it. These are all but negations,
/// equalities, `&&`, `||`, `in`, `instanceof`, conditionals, sequences, assignments and updates.
pub proof fn law_cost_of_plain(e: ExprView, in_bool_ctx: bool, is_ret_val_ignored: bool)
    requires
        !(e is Cond) && !(e is Sequence) && !(e is Assign),
        e matches ExprView::Unary { op, .. } ==> op != UnaryOp::Bang,
        e matches ExprView::Bin { op, .. } ==> op != BinaryOp::EqEq && op != BinaryOp::NotEq && op
            != BinaryOp::EqEqEq && op != BinaryOp::NotEqEq && op != BinaryOp::LogicalAnd && op
            != BinaryOp::LogicalOr && op != BinaryOp::In && op != BinaryOp::InstanceOf,
        e matches ExprView::Leaf { kind, .. } ==> !(kind is Update),
    ensures
        cost_of_negation(e, in_bool_ctx, is_ret_val_ignored) == if is_ret_val_ignored {
            0int
        } else {
            1
        },
{
}

/// Equalities cost nothing; `in`, `instanceof` and updates cost 3; an assignment costs 3, or
/// nothing where its value is ignored.
pub proof fn law_cost_of_fixed(e: ExprView, in_bool_ctx: bool, is_ret_val_ignored: bool)
    ensures
        e matches ExprView::Bin { op, .. } && (op == BinaryOp::EqEq || op == BinaryOp::NotEq || op
            == BinaryOp::EqEqEq || op == BinaryOp::NotEqEq) ==> cost_of_negation(
            e,
            in_bool_ctx,
            is_ret_val_ignored,
        ) == 0,
        e matches ExprView::Bin { op, .. } && (op == BinaryOp::In || op == BinaryOp::InstanceOf)
            ==> cost_of_negation(e, in_bool_ctx, is_ret_val_ignored) == 3,
        e matches ExprView::Leaf { kind: LeafKindView::Update, .. } ==> cost_of_negation(
            e,
            in_bool_ctx,
            is_ret_val_ignored,
        ) == 3,
        e is Assign ==> cost_of_negation(e, in_bool_ctx, false) == 3,
        e is Assign ==> cost_of_negation(e, in_bool_ctx, true) == 0,
{
}

/// Whether `e` is a call of a function expression.
pub open spec fn is_call_of_fn(e: ExprView) -> bool {
    e matches ExprView::Call { callee: ExprOrSuperView::Expr(f), .. } && (
    *f matches ExprView::Leaf { kind: LeafKindView::Fn { .. }, .. })
}

/// `!x` costs nothing where `x` calls a function expression. Elsewhere it costs, where only the
/// truth counts, the opposite of what `x` costs there and at most -1; and where the value counts,
/// -1 if `x` is a negation itself and 1 if not.
pub proof fn law_cost_of_negation(e: ExprView, is_ret_val_ignored: bool)
    requires
        e matches ExprView::Unary { op: UnaryOp::Bang, .. },
    ensures
        ({
            let x = *e->arg;
            let in_truth = cost_of_negation(e, true, is_ret_val_ignored);
            let in_value = cost_of_negation(e, false, is_ret_val_ignored);
            let inner = cost_of_negation(x, true, is_ret_val_ignored);
            if is_call_of_fn(x) {
                in_truth == 0 && in_value == 0
            } else {
                &&& in_truth <= -1 && in_truth <= -inner
                &&& in_truth == -1 || in_truth == -inner
                &&& in_value == if x matches ExprView::Unary { op: UnaryOp::Bang, .. } {
                    -1int
                } else {
                    1
                }
            }
        }),
{
}

/// `&&` and `||` cost what their operands cost together, the left one as one whose value is read;
/// a right operand whose value is read and that may not be negated in place counts 3.
pub proof fn law_cost_of_operands(e: ExprView, in_bool_ctx: bool, is_ret_val_ignored: bool)
    requires
        e matches ExprView::Bin { op, .. } && (op == BinaryOp::LogicalAnd || op
            == BinaryOp::LogicalOr),
    ensures
        ({
            let all = cost_of_negation(e, in_bool_ctx, is_ret_val_ignored);
            let l = cost_of_negation(*e->Bin_left, in_bool_ctx, false);
            let r = cost_of_negation(*e->Bin_right, in_bool_ctx, is_ret_val_ignored);
            &&& is_ret_val_ignored || ok_to_negate_rhs(*e->Bin_right) ==> all == l + r
            &&& !is_ret_val_ignored && !ok_to_negate_rhs(*e->Bin_right) ==> all == l + 3
        }),
{
}

/// A conditional costs what its branches cost together, or 3 if one of them is an update.
pub proof fn law_cost_of_branches(e: ExprView, in_bool_ctx: bool, is_ret_val_ignored: bool)
    requires
        e is Cond,
    ensures
        ({
            let has_update = (*e->cons matches ExprView::Leaf { kind: LeafKindView::Update, .. }) || (
            *e->alt matches ExprView::Leaf { kind: LeafKindView::Update, .. });
            let x = cost_of_negation(*e->cons, in_bool_ctx, is_ret_val_ignored);
            let y = cost_of_negation(*e->alt, in_bool_ctx, is_ret_val_ignored);
            cost_of_negation(e, in_bool_ctx, is_ret_val_ignored) == if has_update {
                3
            } else {
                x + y
            }
        }),
{
}

/// Whether negation meets a `!` in `e` that it could take away.
pub open spec fn meets_bang(e: ExprView) -> bool
    decreases e,
{
    match e {
        ExprView::Unary { op, .. } => op == UnaryOp::Bang,
        ExprView::Bin { op, left, right, .. } => (op == BinaryOp::LogicalAnd || op
            == BinaryOp::LogicalOr) && (meets_bang(*left) || meets_bang(*right)),
        ExprView::Cond { cons, alt, .. } => meets_bang(*cons) || meets_bang(*alt),
        ExprView::Sequence { exprs, .. } => exprs.len() > 0 && meets_bang(exprs[exprs.len() - 1]),
        _ => false,
    }
}

/// It pays to negate an expression only where there is a `!` to be taken away.
pub proof fn law_cost_negative_only_with_bang(
    e: ExprView,
    in_bool_ctx: bool,
    is_ret_val_ignored: bool,
)
    requires
        !meets_bang(e),
    ensures
        cost_of_negation(e, in_bool_ctx, is_ret_val_ignored) >= 0,
    decreases e,
{
    match e {
        ExprView::Bin { left, right, op, .. } => {
            if op == BinaryOp::LogicalAnd || op == BinaryOp::LogicalOr {
                law_cost_negative_only_with_bang(*left, in_bool_ctx, false);
                law_cost_negative_only_with_bang(*right, in_bool_ctx, is_ret_val_ignored);
            }
        },
        ExprView::Cond { cons, alt, .. } => {
            law_cost_negative_only_with_bang(*cons, in_bool_ctx, is_ret_val_ignored);
            law_cost_negative_only_with_bang(*alt, in_bool_ctx, is_ret_val_ignored);
        },
        ExprView::Sequence { exprs, .. } => {
            if exprs.len() > 0 {
                law_cost_negative_only_with_bang(
                    exprs[exprs.len() - 1],
                    in_bool_ctx,
                    is_ret_val_ignored,
                );
            }
        },
        _ => {},
    }
}

/// The number of `!` in `e`, outside the parts of members, calls and assignments.
pub open spec fn bangs(e: ExprView) -> int
    decreases e, 0int,
{
    match e {
        ExprView::Unary { op, arg, .. } => bangs(*arg) + if op == UnaryOp::Bang {
            1int
        } else {
            0
        },
        ExprView::Bin { left, right, .. } => bangs(*left) + bangs(*right),
        ExprView::Cond { test, cons, alt, .. } => bangs(*test) + bangs(*cons) + bangs(*alt),
        ExprView::Sequence { exprs, .. } => bangs_in(exprs, exprs.len() as int),
        _ => 0,
    }
}

/// The number of `!` in the first `n` of `exprs`.
pub open spec fn bangs_in(exprs: Seq<ExprView>, n: int) -> int
    decreases exprs, n,
{
    if 0 < n <= exprs.len() {
        bangs_in(exprs, n - 1) + bangs(exprs[n - 1])
    } else {
        0
    }
}

/// Only the first `n` expressions count for the number of `!` in them.
proof fn lemma_bangs_in(a: Seq<ExprView>, b: Seq<ExprView>, n: int)
    requires
        n <= a.len(),
        n <= b.len(),
        forall|i: int| 0 <= i < n ==> a[i] == b[i],
    ensures
        bangs_in(a, n) == bangs_in(b, n),
    decreases n,
{
    if n > 0 {
        lemma_bangs_in(a, b, n - 1);
    }
}

/// Whether the cost of negating `e` is a matter of `!` alone: no `in`, `instanceof`, update or
/// assignment whose value is negated, no right operand that may not be negated in place, and where
/// only the truth counts, each `!` before an identifier or a member.
pub open spec fn priced_by_bangs(e: ExprView, in_bool_ctx: bool) -> bool
    decreases e,
{
    match e {
        ExprView::Unary { op, arg, .. } => op == UnaryOp::Bang ==> if in_bool_ctx {
            *arg is Ident || *arg is Member
        } else {
            !(*arg is Bin) && !(*arg is Call)
        },
        ExprView::Bin { op, left, right, .. } => match op {
            BinaryOp::In | BinaryOp::InstanceOf => false,
            BinaryOp::LogicalAnd | BinaryOp::LogicalOr => ok_to_negate_rhs(*right)
                && priced_by_bangs(*left, in_bool_ctx) && priced_by_bangs(*right, in_bool_ctx),
            _ => true,
        },
        ExprView::Cond { cons, alt, .. } => priced_by_bangs(*cons, in_bool_ctx) && priced_by_bangs(
            *alt,
            in_bool_ctx,
        ),
        ExprView::Sequence { exprs, .. } => exprs.len() > 0 ==> priced_by_bangs(
            exprs[exprs.len() - 1],
            in_bool_ctx,
        ),
        ExprView::Assign { .. } => false,
        ExprView::Leaf { kind, .. } => !(kind is Update),
        _ => true,
    }
}

/// The cost of negating an expression whose value is read is the number of `!` by which the
/// negation is longer, where it is a matter of `!` alone.
pub proof fn law_cost_counts_bangs(e: ExprView, in_bool_ctx: bool)
    requires
        priced_by_bangs(e, in_bool_ctx),
    ensures
        cost_of_negation(e, in_bool_ctx, false) == bangs(negated(e, in_bool_ctx)) - bangs(e),
    decreases e,
{
    reveal_with_fuel(bangs, 2);
    match e {
        ExprView::Unary { op, arg, .. } => {
            if op == UnaryOp::Bang {
                assert(cost_of_negation(*arg, true, false) <= 1 || !in_bool_ctx);
            }
        },
        ExprView::Bin { op, left, right, .. } => {
            if op == BinaryOp::LogicalAnd || op == BinaryOp::LogicalOr {
                law_cost_counts_bangs(*left, in_bool_ctx);
                law_cost_counts_bangs(*right, in_bool_ctx);
            }
        },
        ExprView::Cond { cons, alt, .. } => {
            law_cost_counts_bangs(*cons, in_bool_ctx);
            law_cost_counts_bangs(*alt, in_bool_ctx);
        },
        ExprView::Sequence { exprs, .. } => {
            if exprs.len() > 0 {
                let n = exprs.len() - 1;
                let after = negated(e, in_bool_ctx)->exprs;
                law_cost_counts_bangs(exprs[n], in_bool_ctx);
                lemma_bangs_in(exprs, after, n);
                assert(bangs_in(exprs, n + 1) == bangs_in(exprs, n) + bangs(exprs[n]));
                assert(bangs_in(after, n + 1) == bangs_in(after, n) + bangs(after[n]));
            }
        },
        _ => {},
    }
}

/// The number of nodes of `e`, where members, calls, assignments and leaves count as one.
pub open spec fn nodes(e: ExprView) -> nat
    decreases e, 0int,
{
    match e {
        ExprView::Unary { arg, .. } => 1 + nodes(*arg),
        ExprView::Bin { left, right, .. } => 1 + nodes(*left) + nodes(*right),
        ExprView::Cond { test, cons, alt, .. } => 1 + nodes(*test) + nodes(*cons) + nodes(*alt),
        ExprView::Sequence { exprs, .. } => 1 + nodes_in(exprs, exprs.len() as int),
        _ => 1,
    }
}

/// The number of nodes of the first `n` of `exprs`.
pub open spec fn nodes_in(exprs: Seq<ExprView>, n: int) -> nat
    decreases exprs, n,
{
    if 0 < n <= exprs.len() {
        nodes_in(exprs, n - 1) + nodes(exprs[n - 1])
    } else {
        0
    }
}

/// The size that the cost is limited by is no more than the number of nodes.
pub proof fn law_weight_within_nodes(e: ExprView)
    ensures
        1 <= weight(e) <= nodes(e),
    decreases e,
{
    match e {
        ExprView::Unary { arg, .. } => {
            law_weight_within_nodes(*arg);
        },
        ExprView::Bin { left, right, .. } => {
            law_weight_within_nodes(*left);
            law_weight_within_nodes(*right);
        },
        ExprView::Cond { cons, alt, .. } => {
            law_weight_within_nodes(*cons);
            law_weight_within_nodes(*alt);
        },
        ExprView::Sequence { exprs, .. } => {
            if exprs.len() > 0 {
                let n = exprs.len() as int;
                law_weight_within_nodes(exprs[n - 1]);
                assert(nodes_in(exprs, n) == nodes_in(exprs, n - 1) + nodes(exprs[n - 1]));
            }
        },
        _ => {},
    }
}

}
