//! What negation makes of each form of expression.

use crate::effects::has_effects;
use crate::negate::{negated, ok_to_negate_for_cond, ok_to_negate_rhs};
use crate::outside::span_at;
use crate::syntax::{BinaryOp, ExprView, LeafKindView, UnaryOp};
use vstd::prelude::*;

verus! {

/// Whether `n` is `e` with a `!` of generated code in front.
pub open spec fn is_prefixed(n: ExprView, e: ExprView) -> bool {
    n == (ExprView::Unary { span: span_at(0, 0), op: UnaryOp::Bang, arg: Box::new(e) })
}

/// An equality keeps its operands and its place; `==` and `!=` change places, and so do `===` and
/// `!==`.
pub proof fn law_negated_equality(e: ExprView, in_bool_ctx: bool)
    ensures
        e matches ExprView::Bin { span, op: BinaryOp::EqEq, left, right } ==> negated(e, in_bool_ctx)
            == (ExprView::Bin { span, op: BinaryOp::NotEq, left, right }),
        e matches ExprView::Bin { span, op: BinaryOp::NotEq, left, right } ==> negated(
            e,
            in_bool_ctx,
        ) == (ExprView::Bin { span, op: BinaryOp::EqEq, left, right }),
        e matches ExprView::Bin { span, op: BinaryOp::EqEqEq, left, right } ==> negated(
            e,
            in_bool_ctx,
        ) == (ExprView::Bin { span, op: BinaryOp::NotEqEq, left, right }),
        e matches ExprView::Bin { span, op: BinaryOp::NotEqEq, left, right } ==> negated(
            e,
            in_bool_ctx,
        ) == (ExprView::Bin { span, op: BinaryOp::EqEqEq, left, right }),
{
}

/// `&&` becomes `||` of the negated operands, and `||` becomes `&&`, where the right operand may be
/// negated in place; else a `!` is put in front.
pub proof fn law_negated_logical(e: ExprView, in_bool_ctx: bool)
    ensures
        e matches ExprView::Bin { span, op: BinaryOp::LogicalAnd, left, right } ==> ok_to_negate_rhs(
            *right,
        ) ==> negated(e, in_bool_ctx) == (ExprView::Bin {
            span,
            op: BinaryOp::LogicalOr,
            left: Box::new(negated(*left, in_bool_ctx)),
            right: Box::new(negated(*right, in_bool_ctx)),
        }),
        e matches ExprView::Bin { span, op: BinaryOp::LogicalOr, left, right } ==> ok_to_negate_rhs(
            *right,
        ) ==> negated(e, in_bool_ctx) == (ExprView::Bin {
            span,
            op: BinaryOp::LogicalAnd,
            left: Box::new(negated(*left, in_bool_ctx)),
            right: Box::new(negated(*right, in_bool_ctx)),
        }),
        e matches ExprView::Bin { op, right, .. } && (op == BinaryOp::LogicalAnd || op
            == BinaryOp::LogicalOr) && !ok_to_negate_rhs(*right) ==> is_prefixed(
            negated(e, in_bool_ctx),
            e,
        ),
{
}

/// A conditional keeps its test and has both branches negated, unless one of them is an update:
/// then a `!` is put in front.
pub proof fn law_negated_conditional(e: ExprView, in_bool_ctx: bool)
    requires
        e is Cond,
    ensures
        e matches ExprView::Cond { span, test, cons, alt } && {
            let has_update = (*cons matches ExprView::Leaf { kind: LeafKindView::Update, .. }) || (
            *alt matches ExprView::Leaf { kind: LeafKindView::Update, .. });
            if has_update {
                is_prefixed(negated(e, in_bool_ctx), e)
            } else {
                negated(e, in_bool_ctx) == (ExprView::Cond {
                    span,
                    test,
                    cons: Box::new(negated(*cons, in_bool_ctx)),
                    alt: Box::new(negated(*alt, in_bool_ctx)),
                })
            }
        },
{
}

/// A sequence has its last expression negated and all others left as they are; an empty one gets a
/// `!` in front.
pub proof fn law_negated_sequence(e: ExprView, in_bool_ctx: bool)
    requires
        e is Sequence,
    ensures
        e->exprs.len() == 0 ==> is_prefixed(negated(e, in_bool_ctx), e),
        e->exprs.len() > 0 ==> {
            let n = negated(e, in_bool_ctx);
            let last = e->exprs.len() - 1;
            &&& n is Sequence
            &&& n->Sequence_span == e->Sequence_span
            &&& n->exprs.len() == e->exprs.len()
            &&& forall|i: int| 0 <= i < last ==> #[trigger] n->exprs[i] == e->exprs[i]
            &&& n->exprs[last] == negated(e->exprs[last], in_bool_ctx)
        },
{
}

/// A `!` is taken away where only the truth counts or where it stands before another `!`, `in` or
/// `instanceof`, and what it stood before is left as it is; else another `!` is put in front.
pub proof fn law_negated_bang(e: ExprView, in_bool_ctx: bool)
    requires
        e matches ExprView::Unary { op: UnaryOp::Bang, .. },
    ensures
        ({
            let x = *e->arg;
            let is_boolean = (x matches ExprView::Unary { op: UnaryOp::Bang, .. }) || (
            x matches ExprView::Bin { op: BinaryOp::In, .. }) || (
            x matches ExprView::Bin { op: BinaryOp::InstanceOf, .. });
            if in_bool_ctx || is_boolean {
                negated(e, in_bool_ctx) == x
            } else {
                is_prefixed(negated(e, in_bool_ctx), e)
            }
        }),
{
}

/// Every other expression is left as it is and gets a `!` in front.
pub proof fn law_negated_plain(e: ExprView, in_bool_ctx: bool)
    requires
        !(e is Cond),
        !(e is Sequence),
        e matches ExprView::Unary { op, .. } ==> op != UnaryOp::Bang,
        e matches ExprView::Bin { op, .. } ==> op != BinaryOp::EqEq && op != BinaryOp::NotEq && op
            != BinaryOp::EqEqEq && op != BinaryOp::NotEqEq && op != BinaryOp::LogicalAnd && op
            != BinaryOp::LogicalOr,
    ensures
        is_prefixed(negated(e, in_bool_ctx), e),
{
}

/// A branch of a conditional may be negated in place unless it is an update.
pub proof fn law_branch_may_be_negated(e: ExprView)
    ensures
        e matches ExprView::Leaf { kind: LeafKindView::Update, .. } ==> !ok_to_negate_for_cond(e),
        e matches ExprView::Leaf { kind, .. } && !(kind is Update) ==> ok_to_negate_for_cond(e),
        !(e is Leaf) ==> ok_to_negate_for_cond(e),
{
}

/// A member, an equality, a `!`, a `delete`, an identifier, a literal, a function expression and an
/// empty sequence may always be negated in place on the right.
pub proof fn law_rhs_always_negatable(rhs: ExprView)
    requires
        ({
            ||| rhs is Member
            ||| rhs is Ident
            ||| rhs matches ExprView::Bin { op, .. } && (op == BinaryOp::EqEq || op
                == BinaryOp::NotEq || op == BinaryOp::EqEqEq || op == BinaryOp::NotEqEq)
            ||| rhs matches ExprView::Unary { op, .. } && (op == UnaryOp::Bang || op
                == UnaryOp::Delete)
            ||| rhs matches ExprView::Leaf { kind, .. } && (kind is Fn || kind is Str || kind is Null
                || kind is Lit)
            ||| rhs is Sequence && rhs->exprs.len() == 0
        }),
    ensures
        ok_to_negate_rhs(rhs),
{
}

/// A call, a `new` and an update may never be negated in place on the right.
pub proof fn law_rhs_never_negatable(rhs: ExprView)
    requires
        rhs is Call || (rhs matches ExprView::Leaf { kind, .. } && (kind is New || kind is Update)),
    ensures
        !ok_to_negate_rhs(rhs),
{
}

/// What an expression passes on as its value decides: both operands of an operator, the right side
/// of an assignment, both branches of a conditional, the last of a sequence.
pub proof fn law_rhs_negatable_with_its_parts(rhs: ExprView)
    ensures
        rhs matches ExprView::Bin { op, left, right, .. } ==> op != BinaryOp::EqEq && op
            != BinaryOp::NotEq && op != BinaryOp::EqEqEq && op != BinaryOp::NotEqEq
            ==> ok_to_negate_rhs(rhs) == (ok_to_negate_rhs(*left) && ok_to_negate_rhs(*right)),
        rhs matches ExprView::Assign { right, .. } ==> ok_to_negate_rhs(rhs) == ok_to_negate_rhs(
            *right,
        ),
        rhs matches ExprView::Cond { cons, alt, .. } ==> ok_to_negate_rhs(rhs) == (ok_to_negate_rhs(
            *cons,
        ) && ok_to_negate_rhs(*alt)),
        rhs matches ExprView::Sequence { exprs, .. } ==> exprs.len() > 0 ==> ok_to_negate_rhs(rhs)
            == ok_to_negate_rhs(exprs[exprs.len() - 1]),
{
}

/// Any other prefix operator may be negated in place on the right where its operand has no side
/// effects, and any other expression where it has none itself.
pub proof fn law_rhs_negatable_without_effects(rhs: ExprView)
    ensures
        rhs matches ExprView::Unary { op, arg, .. } ==> op != UnaryOp::Bang && op != UnaryOp::Delete
            ==> ok_to_negate_rhs(rhs) == !has_effects(*arg),
        rhs matches ExprView::Leaf { kind: LeafKindView::Other { has_effects: effects }, .. }
            ==> ok_to_negate_rhs(rhs) == !effects,
{
}

}
