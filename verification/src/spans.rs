//! No decision depends on where in the source an expression stands.

use crate::cost::{calls_fn_expr, cost_of_negation};
use crate::effects::{has_effects, is_math, is_pure_callee};
use crate::negate::{negated, ok_to_negate_rhs};
use crate::number::{
    all_some, arg_plans, args_are_plain, math_property, number_plan, NumberPlanView,
};
use crate::syntax::{ExprOrSpreadView, ExprOrSuperView, ExprView};
use crate::undefined::pure_undefined;
use swc_ecma_ast::Expr as AstExpr;
use swc_ecma_ast::PatOrExpr as AstPatOrExpr;
use swc_ecma_ast::TsTypeParamInstantiation as AstTypeArgs;
use vstd::prelude::*;

verus! {

/// Which of the parts that are carried as they are count as the same up to spans. What follows
/// holds for any choice.
pub struct Sameness {
    pub nodes: spec_fn(AstExpr, AstExpr) -> bool,
    pub targets: spec_fn(AstPatOrExpr, AstPatOrExpr) -> bool,
    pub type_args: spec_fn(Option<AstTypeArgs>, Option<AstTypeArgs>) -> bool,
}

/// Whether `a` and `b` differ in spans alone.
pub open spec fn same_up_to_spans(same: Sameness, a: ExprView, b: ExprView) -> bool
    decreases a,
{
    match (a, b) {
        (ExprView::Unary { op: o, arg: x, .. }, ExprView::Unary { op: p, arg: y, .. }) => o == p
            && same_up_to_spans(same, *x, *y),
        (
            ExprView::Bin { op: o, left: l, right: r, .. },
            ExprView::Bin { op: p, left: m, right: s, .. },
        ) => o == p && same_up_to_spans(same, *l, *m) && same_up_to_spans(same, *r, *s),
        (
            ExprView::Assign { op: o, left: l, right: r, .. },
            ExprView::Assign { op: p, left: m, right: s, .. },
        ) => o == p && (same.targets)(l, m) && same_up_to_spans(same, *r, *s),
        (
            ExprView::Member { obj: o, prop: x, computed: c, .. },
            ExprView::Member { obj: p, prop: y, computed: d, .. },
        ) => c == d && same_callee_up_to_spans(same, o, p) && same_up_to_spans(same, *x, *y),
        (
            ExprView::Cond { test: t, cons: x, alt: v, .. },
            ExprView::Cond { test: u, cons: y, alt: w, .. },
        ) => same_up_to_spans(same, *t, *u) && same_up_to_spans(same, *x, *y) && same_up_to_spans(
            same,
            *v,
            *w,
        ),
        (
            ExprView::Call { callee: c, args: x, type_args: t, .. },
            ExprView::Call { callee: d, args: y, type_args: u, .. },
        ) => same_callee_up_to_spans(same, c, d) && (same.type_args)(t, u)
            && same_args_up_to_spans(same, x, y),
        (ExprView::Sequence { exprs: x, .. }, ExprView::Sequence { exprs: y, .. }) => x.len()
            == y.len() && forall|i: int|
            0 <= i < x.len() ==> same_up_to_spans(same, #[trigger] x[i], y[i]),
        (
            ExprView::Ident { sym: s, optional: o, .. },
            ExprView::Ident { sym: t, optional: p, .. },
        ) => s == t && o == p,
        (ExprView::Leaf { kind: k, node: m }, ExprView::Leaf { kind: l, node: n }) => k == l && (
        same.nodes)(m, n),
        _ => false,
    }
}

/// Whether `a` and `b`, in front of a member access or a call, differ in spans alone.
pub open spec fn same_callee_up_to_spans(
    same: Sameness,
    a: ExprOrSuperView,
    b: ExprOrSuperView,
) -> bool
    decreases a,
{
    match (a, b) {
        (ExprOrSuperView::Super(_), ExprOrSuperView::Super(_)) => true,
        (ExprOrSuperView::Expr(x), ExprOrSuperView::Expr(y)) => same_up_to_spans(same, *x, *y),
        _ => false,
    }
}

/// Whether the arguments `a` and `b` differ in spans alone.
pub open spec fn same_args_up_to_spans(
    same: Sameness,
    a: Seq<ExprOrSpreadView>,
    b: Seq<ExprOrSpreadView>,
) -> bool
    decreases a,
{
    &&& a.len() == b.len()
    &&& forall|i: int|
        0 <= i < a.len() ==> (#[trigger] a[i]).spread is Some == b[i].spread is Some
            && same_up_to_spans(same, a[i].expr, b[i].expr)
}

/// Whether the plans `a` and `b` compute the same, but for spans in what they cast.
pub open spec fn same_plan_up_to_spans(
    same: Sameness,
    a: NumberPlanView,
    b: NumberPlanView,
) -> bool
    decreases a,
{
    match (a, b) {
        (NumberPlanView::Sub(l, r), NumberPlanView::Sub(m, s)) => same_plan_up_to_spans(same, *l, *m)
            && same_plan_up_to_spans(same, *r, *s),
        (NumberPlanView::Cos(x), NumberPlanView::Cos(y)) => same_plan_up_to_spans(same, *x, *y),
        (NumberPlanView::Sin(x), NumberPlanView::Sin(y)) => same_plan_up_to_spans(same, *x, *y),
        (NumberPlanView::Max(x), NumberPlanView::Max(y)) => x.len() == y.len() && forall|i: int|
            0 <= i < x.len() ==> same_plan_up_to_spans(same, #[trigger] x[i], y[i]),
        (NumberPlanView::Min(x), NumberPlanView::Min(y)) => x.len() == y.len() && forall|i: int|
            0 <= i < x.len() ==> same_plan_up_to_spans(same, #[trigger] x[i], y[i]),
        (NumberPlanView::Pow(l, r), NumberPlanView::Pow(m, s)) => same_plan_up_to_spans(same, *l, *m)
            && same_plan_up_to_spans(same, *r, *s),
        (NumberPlanView::Pi, NumberPlanView::Pi) => true,
        (NumberPlanView::E, NumberPlanView::E) => true,
        (NumberPlanView::Ln10, NumberPlanView::Ln10) => true,
        (NumberPlanView::Cast(x), NumberPlanView::Cast(y)) => same_up_to_spans(same, x, y),
        _ => false,
    }
}

/// Whether there is a plan in both cases or in neither, and the two compute the same.
pub open spec fn same_answer_up_to_spans(
    same: Sameness,
    a: Option<NumberPlanView>,
    b: Option<NumberPlanView>,
) -> bool {
    match (a, b) {
        (Some(p), Some(q)) => same_plan_up_to_spans(same, p, q),
        (None, None) => true,
        _ => false,
    }
}

/// Whether an expression may have side effects does not depend on spans.
pub proof fn law_effects_ignore_spans(same: Sameness, a: ExprView, b: ExprView)
    requires
        same_up_to_spans(same, a, b),
    ensures
        has_effects(a) == has_effects(b),
    decreases a,
{
    match (a, b) {
        (ExprView::Unary { arg: x, .. }, ExprView::Unary { arg: y, .. }) => {
            law_effects_ignore_spans(same, *x, *y);
        },
        (ExprView::Bin { left: l, right: r, .. }, ExprView::Bin { left: m, right: s, .. }) => {
            law_effects_ignore_spans(same, *l, *m);
            law_effects_ignore_spans(same, *r, *s);
        },
        (ExprView::Member { obj: o, .. }, ExprView::Member { obj: p, .. }) => {
            assert(same_callee_up_to_spans(same, o, p));
            lemma_is_math(same, o, p);
        },
        (
            ExprView::Cond { test: t, cons: x, alt: v, .. },
            ExprView::Cond { test: u, cons: y, alt: w, .. },
        ) => {
            law_effects_ignore_spans(same, *t, *u);
            law_effects_ignore_spans(same, *x, *y);
            law_effects_ignore_spans(same, *v, *w);
        },
        (ExprView::Sequence { exprs: x, .. }, ExprView::Sequence { exprs: y, .. }) => {
            assert forall|i: int|
                #![trigger x[i]]
                #![trigger y[i]]
                0 <= i < x.len() implies has_effects(x[i]) == has_effects(y[i]) by {
                law_effects_ignore_spans(same, x[i], y[i]);
            }
        },
        (
            ExprView::Call { callee: c, args: x, .. },
            ExprView::Call { callee: d, args: y, .. },
        ) => {
            assert(same_callee_up_to_spans(same, c, d));
            assert(same_args_up_to_spans(same, x, y));
            if let (ExprOrSuperView::Expr(c), ExprOrSuperView::Expr(d)) = (c, d) {
                lemma_is_pure_callee(same, *c, *d);
            }
            assert forall|i: int|
                #![trigger x[i]]
                #![trigger y[i]]
                0 <= i < x.len() implies has_effects(x[i].expr) == has_effects(y[i].expr) by {
                law_effects_ignore_spans(same, x[i].expr, y[i].expr);
            }
        },
        _ => {},
    }
}

/// Whether something is `Math` does not depend on spans.
proof fn lemma_is_math(same: Sameness, a: ExprOrSuperView, b: ExprOrSuperView)
    requires
        same_callee_up_to_spans(same, a, b),
    ensures
        is_math(a) == is_math(b),
{
    reveal_with_fuel(same_up_to_spans, 2);
}

/// Whether a call does nothing itself does not depend on spans.
proof fn lemma_is_pure_callee(same: Sameness, a: ExprView, b: ExprView)
    requires
        same_up_to_spans(same, a, b),
    ensures
        is_pure_callee(a) == is_pure_callee(b),
{
    if let (ExprView::Member { obj: o, .. }, ExprView::Member { obj: p, .. }) = (a, b) {
        assert(same_callee_up_to_spans(same, o, p));
        lemma_is_math(same, o, p);
    }
}

/// What is read off `Math` does not depend on spans.
proof fn lemma_math_property(same: Sameness, a: ExprView, b: ExprView)
    requires
        same_up_to_spans(same, a, b),
    ensures
        math_property(a) == math_property(b),
{
    reveal_with_fuel(same_up_to_spans, 3);
    reveal_with_fuel(same_callee_up_to_spans, 3);
}

/// Whether a right operand may be negated in place does not depend on spans.
pub proof fn law_negatable_rhs_ignores_spans(same: Sameness, a: ExprView, b: ExprView)
    requires
        same_up_to_spans(same, a, b),
    ensures
        ok_to_negate_rhs(a) == ok_to_negate_rhs(b),
    decreases a,
{
    law_effects_ignore_spans(same, a, b);
    match (a, b) {
        (ExprView::Bin { left: l, right: r, .. }, ExprView::Bin { left: m, right: s, .. }) => {
            law_negatable_rhs_ignores_spans(same, *l, *m);
            law_negatable_rhs_ignores_spans(same, *r, *s);
        },
        (ExprView::Assign { right: r, .. }, ExprView::Assign { right: s, .. }) => {
            law_negatable_rhs_ignores_spans(same, *r, *s);
        },
        (ExprView::Cond { cons: x, alt: v, .. }, ExprView::Cond { cons: y, alt: w, .. }) => {
            law_negatable_rhs_ignores_spans(same, *x, *y);
            law_negatable_rhs_ignores_spans(same, *v, *w);
        },
        (ExprView::Sequence { exprs: x, .. }, ExprView::Sequence { exprs: y, .. }) => {
            if x.len() > 0 {
                law_negatable_rhs_ignores_spans(same, x[x.len() - 1], y[y.len() - 1]);
            }
        },
        _ => {},
    }
}

/// The negations of expressions that differ in spans alone differ in spans alone.
pub proof fn law_negation_ignores_spans(
    same: Sameness,
    a: ExprView,
    b: ExprView,
    in_bool_ctx: bool,
)
    requires
        same_up_to_spans(same, a, b),
    ensures
        same_up_to_spans(same, negated(a, in_bool_ctx), negated(b, in_bool_ctx)),
    decreases a,
{
    reveal_with_fuel(same_up_to_spans, 2);
    match (a, b) {
        (ExprView::Bin { left: l, right: r, .. }, ExprView::Bin { left: m, right: s, .. }) => {
            law_negatable_rhs_ignores_spans(same, *r, *s);
            law_negation_ignores_spans(same, *l, *m, in_bool_ctx);
            law_negation_ignores_spans(same, *r, *s, in_bool_ctx);
        },
        (ExprView::Cond { cons: x, alt: v, .. }, ExprView::Cond { cons: y, alt: w, .. }) => {
            law_negation_ignores_spans(same, *x, *y, in_bool_ctx);
            law_negation_ignores_spans(same, *v, *w, in_bool_ctx);
        },
        (ExprView::Sequence { exprs: x, .. }, ExprView::Sequence { exprs: y, .. }) => {
            if x.len() > 0 {
                law_negation_ignores_spans(same, x[x.len() - 1], y[y.len() - 1], in_bool_ctx);
            }
        },
        _ => {},
    }
}

/// Whether a function expression is called on the spot does not depend on spans.
proof fn lemma_calls_fn_expr(same: Sameness, a: ExprView, b: ExprView)
    requires
        same_up_to_spans(same, a, b),
    ensures
        calls_fn_expr(a) == calls_fn_expr(b),
{
    if let (ExprView::Call { callee: c, .. }, ExprView::Call { callee: d, .. }) = (a, b) {
        assert(same_callee_up_to_spans(same, c, d));
        if let (ExprOrSuperView::Expr(c), ExprOrSuperView::Expr(d)) = (c, d) {
            assert(same_up_to_spans(same, *c, *d));
        }
    }
}

/// The cost of negating an expression does not depend on spans.
pub proof fn law_cost_ignores_spans(
    same: Sameness,
    a: ExprView,
    b: ExprView,
    in_bool_ctx: bool,
    is_ret_val_ignored: bool,
)
    requires
        same_up_to_spans(same, a, b),
    ensures
        cost_of_negation(a, in_bool_ctx, is_ret_val_ignored) == cost_of_negation(
            b,
            in_bool_ctx,
            is_ret_val_ignored,
        ),
    decreases a,
{
    match (a, b) {
        (ExprView::Unary { arg: x, .. }, ExprView::Unary { arg: y, .. }) => {
            lemma_calls_fn_expr(same, *x, *y);
            law_cost_ignores_spans(same, *x, *y, true, is_ret_val_ignored);
        },
        (ExprView::Bin { left: l, right: r, .. }, ExprView::Bin { left: m, right: s, .. }) => {
            law_negatable_rhs_ignores_spans(same, *r, *s);
            law_cost_ignores_spans(same, *l, *m, in_bool_ctx, false);
            law_cost_ignores_spans(same, *r, *s, in_bool_ctx, is_ret_val_ignored);
            assert(cost_of_negation(a, in_bool_ctx, is_ret_val_ignored) == cost_of_negation(
                b,
                in_bool_ctx,
                is_ret_val_ignored,
            ));
        },
        (ExprView::Cond { cons: x, alt: v, .. }, ExprView::Cond { cons: y, alt: w, .. }) => {
            law_cost_ignores_spans(same, *x, *y, in_bool_ctx, is_ret_val_ignored);
            law_cost_ignores_spans(same, *v, *w, in_bool_ctx, is_ret_val_ignored);
            assert(cost_of_negation(a, in_bool_ctx, is_ret_val_ignored) == cost_of_negation(
                b,
                in_bool_ctx,
                is_ret_val_ignored,
            ));
        },
        (ExprView::Sequence { exprs: x, .. }, ExprView::Sequence { exprs: y, .. }) => {
            if x.len() > 0 {
                law_cost_ignores_spans(
                    same,
                    x[x.len() - 1],
                    y[y.len() - 1],
                    in_bool_ctx,
                    is_ret_val_ignored,
                );
            }
        },
        _ => {},
    }
}

/// Whether an expression is `undefined` and nothing else does not depend on spans.
pub proof fn law_pure_undefined_ignores_spans(same: Sameness, a: ExprView, b: ExprView)
    requires
        same_up_to_spans(same, a, b),
    ensures
        pure_undefined(a) == pure_undefined(b),
{
    if let (ExprView::Unary { arg: x, .. }, ExprView::Unary { arg: y, .. }) = (a, b) {
        law_effects_ignore_spans(same, *x, *y);
    }
}

/// How to compute an expression as a number does not depend on spans: of two expressions that
/// differ in spans alone both can be computed, in the same way, or neither.
pub proof fn law_number_ignores_spans(same: Sameness, a: ExprView, b: ExprView)
    requires
        same_up_to_spans(same, a, b),
    ensures
        same_answer_up_to_spans(same, number_plan(a), number_plan(b)),
    decreases a,
{
    lemma_math_property(same, a, b);
    match (a, b) {
        (ExprView::Bin { left: l, right: r, .. }, ExprView::Bin { left: m, right: s, .. }) => {
            law_number_ignores_spans(same, *l, *m);
            law_number_ignores_spans(same, *r, *s);
        },
        (
            ExprView::Call { callee: c, args: x, .. },
            ExprView::Call { callee: d, args: y, .. },
        ) => {
            assert(same_callee_up_to_spans(same, c, d));
            assert(same_args_up_to_spans(same, x, y));
            if let (ExprOrSuperView::Expr(c), ExprOrSuperView::Expr(d)) = (c, d) {
                lemma_math_property(same, *c, *d);
                let (p, q) = (arg_plans(x), arg_plans(y));
                assert forall|i: int|
                    #![trigger x[i]]
                    #![trigger y[i]]
                    #![trigger p[i]]
                    #![trigger q[i]]
                    0 <= i < x.len() implies has_effects(x[i].expr) == has_effects(y[i].expr)
                    && x[i].spread is Some == y[i].spread is Some && same_answer_up_to_spans(
                    same,
                    p[i],
                    q[i],
                ) by {
                    law_effects_ignore_spans(same, x[i].expr, y[i].expr);
                    law_number_ignores_spans(same, x[i].expr, y[i].expr);
                }
                assert(args_are_plain(x) == args_are_plain(y));
                assert(all_some(p) is Some == all_some(q) is Some);
            }
        },
        (ExprView::Member { obj: o, .. }, ExprView::Member { obj: p, .. }) => {
            assert(same_callee_up_to_spans(same, o, p));
        },
        _ => {},
    }
}

}
