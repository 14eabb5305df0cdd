//! What holds of the library as a whole.

use crate::cost::{calls_fn_expr, cost_of_negation};
use crate::negate::{
    is_equality, is_logical, negated, ok_to_negate_for_cond, ok_to_negate_rhs,
};
use crate::number::{args_are_plain, math_property, number_plan};
use crate::stmt::{terminates, StmtView};
use crate::syntax::{BinaryOp, ExprView, UnaryOp};
use crate::target::{lhs_ident, with_lhs_ident, PatOrExprView};
use vstd::prelude::*;

verus! {

/// What evaluating `e` in the state `s` gives: the state afterwards, and whether the value counts
/// as true. `run` answers this of the expressions that are neither negations nor put together by
/// `&&`, `||`, `? :` or a comma; `!=` and `!==` run as `==` and `===` and give the opposite.
pub open spec fn meaning<S>(
    run: spec_fn(ExprView, S) -> (S, bool),
    e: ExprView,
    s: S,
) -> (S, bool)
    decreases e, 0int,
{
    match e {
        ExprView::Unary { op: UnaryOp::Bang, arg, .. } => {
            let (t, b) = meaning(run, *arg, s);
            (t, !b)
        },
        ExprView::Bin { span, op, left, right } => match op {
            BinaryOp::NotEq => {
                let (t, b) = run(ExprView::Bin { span, op: BinaryOp::EqEq, left, right }, s);
                (t, !b)
            },
            BinaryOp::NotEqEq => {
                let (t, b) = run(ExprView::Bin { span, op: BinaryOp::EqEqEq, left, right }, s);
                (t, !b)
            },
            BinaryOp::LogicalAnd => {
                let (t, b) = meaning(run, *left, s);
                if b {
                    meaning(run, *right, t)
                } else {
                    (t, false)
                }
            },
            BinaryOp::LogicalOr => {
                let (t, b) = meaning(run, *left, s);
                if b {
                    (t, true)
                } else {
                    meaning(run, *right, t)
                }
            },
            _ => run(e, s),
        },
        ExprView::Cond { test, cons, alt, .. } => {
            let (t, b) = meaning(run, *test, s);
            if b {
                meaning(run, *cons, t)
            } else {
                meaning(run, *alt, t)
            }
        },
        ExprView::Sequence { exprs, .. } => if exprs.len() > 0 {
            meaning(run, exprs[exprs.len() - 1], state_after(run, exprs, exprs.len() - 1, s))
        } else {
            run(e, s)
        },
        _ => run(e, s),
    }
}

/// The state after the first `n` of `exprs`, evaluated one after the other from the state `s`.
pub open spec fn state_after<S>(
    run: spec_fn(ExprView, S) -> (S, bool),
    exprs: Seq<ExprView>,
    n: int,
    s: S,
) -> S
    decreases exprs, n,
{
    if 0 < n <= exprs.len() {
        meaning(run, exprs[n - 1], state_after(run, exprs, n - 1, s)).0
    } else {
        s
    }
}

/// Only the first `n` expressions count for the state after them.
proof fn lemma_state_after<S>(
    run: spec_fn(ExprView, S) -> (S, bool),
    a: Seq<ExprView>,
    b: Seq<ExprView>,
    n: int,
    s: S,
)
    requires
        n <= a.len(),
        n <= b.len(),
        forall|i: int| 0 <= i < n ==> a[i] == b[i],
    ensures
        state_after(run, a, n, s) == state_after(run, b, n, s),
    decreases n,
{
    if n > 0 {
        lemma_state_after(run, a, b, n - 1, s);
    }
}

/// The negation of an expression does what the expression does, to the same state and in the same
/// order, and counts as true exactly where the expression does not.
pub proof fn law_negation_flips_truth<S>(
    run: spec_fn(ExprView, S) -> (S, bool),
    e: ExprView,
    in_bool_ctx: bool,
    s: S,
)
    ensures
        meaning(run, negated(e, in_bool_ctx), s) == (meaning(run, e, s).0, !meaning(run, e, s).1),
    decreases e,
{
    match e {
        ExprView::Bin { op, left, right, .. } => {
            if is_logical(op) {
                law_negation_flips_truth(run, *left, in_bool_ctx, s);
                law_negation_flips_truth(run, *right, in_bool_ctx, meaning(run, *left, s).0);
            }
        },
        ExprView::Cond { test, cons, alt, .. } => {
            let t = meaning(run, *test, s).0;
            law_negation_flips_truth(run, *cons, in_bool_ctx, t);
            law_negation_flips_truth(run, *alt, in_bool_ctx, t);
        },
        ExprView::Sequence { exprs, .. } => {
            if exprs.len() > 0 {
                let n = exprs.len() - 1;
                let t = state_after(run, exprs, n, s);
                law_negation_flips_truth(run, exprs[n], in_bool_ctx, t);
                lemma_state_after(
                    run,
                    exprs,
                    exprs.update(n, negated(exprs[n], in_bool_ctx)),
                    n,
                    s,
                );
            }
        },
        _ => {},
    }
}

/// Whether `e` gives a boolean by its form.
pub open spec fn is_boolean(e: ExprView) -> bool
    decreases e,
{
    match e {
        ExprView::Unary { op, .. } => op == UnaryOp::Bang,
        ExprView::Bin { op, left, right, .. } => {
            ||| is_equality(op)
            ||| op == BinaryOp::In
            ||| op == BinaryOp::InstanceOf
            ||| is_logical(op) && is_boolean(*left) && is_boolean(*right)
        },
        ExprView::Cond { cons, alt, .. } => is_boolean(*cons) && is_boolean(*alt),
        ExprView::Sequence { exprs, .. } => exprs.len() > 0 && is_boolean(exprs[exprs.len() - 1]),
        _ => false,
    }
}

/// Where more than the truth of the value counts, the negation of an expression gives a boolean,
/// as `!` does.
pub proof fn law_negation_is_boolean(e: ExprView)
    ensures
        is_boolean(negated(e, false)),
    decreases e,
{
    match e {
        ExprView::Bin { op, left, right, .. } => {
            if is_logical(op) {
                law_negation_is_boolean(*left);
                law_negation_is_boolean(*right);
            }
        },
        ExprView::Cond { cons, alt, .. } => {
            law_negation_is_boolean(*cons);
            law_negation_is_boolean(*alt);
        },
        ExprView::Sequence { exprs, .. } => {
            if exprs.len() > 0 {
                law_negation_is_boolean(exprs[exprs.len() - 1]);
            }
        },
        _ => {},
    }
}

/// The negation of `!!x` is `!x`.
pub proof fn law_double_bang(e: ExprView, in_bool_ctx: bool)
    requires
        e matches ExprView::Unary { op: UnaryOp::Bang, arg, .. } && (
        *arg matches ExprView::Unary { op: UnaryOp::Bang, .. }),
    ensures
        negated(e, in_bool_ctx) == *e->arg,
{
}

/// It is efficient to negate `!!x`, in any context.
pub proof fn law_double_bang_is_efficient(
    e: ExprView,
    in_bool_ctx: bool,
    is_ret_val_ignored: bool,
)
    requires
        e matches ExprView::Unary { op: UnaryOp::Bang, arg, .. } && (
        *arg matches ExprView::Unary { op: UnaryOp::Bang, .. }),
    ensures
        cost_of_negation(e, in_bool_ctx, is_ret_val_ignored) == -1,
{
    reveal_with_fuel(cost_of_negation, 2);
}

/// An equality is negated to its opposite and back, in any two contexts.
pub proof fn law_equality_twice(e: ExprView, in_bool_ctx: bool, then_in_bool_ctx: bool)
    requires
        e matches ExprView::Bin { op, .. } && is_equality(op),
    ensures
        negated(negated(e, in_bool_ctx), then_in_bool_ctx) == e,
{
}

/// Whether [`negated`] reaches no `!` in `e` that it would take away.
pub open spec fn keeps_bangs(e: ExprView) -> bool
    decreases e,
{
    match e {
        ExprView::Unary { op, .. } => op != UnaryOp::Bang,
        ExprView::Bin { op, left, right, .. } => is_logical(op) && ok_to_negate_rhs(*right)
            ==> keeps_bangs(*left) && keeps_bangs(*right),
        ExprView::Cond { cons, alt, .. } => ok_to_negate_for_cond(*cons) && ok_to_negate_for_cond(
            *alt,
        ) ==> keeps_bangs(*cons) && keeps_bangs(*alt),
        ExprView::Sequence { exprs, .. } => exprs.len() > 0 ==> keeps_bangs(
            exprs[exprs.len() - 1],
        ),
        _ => true,
    }
}

/// What negation makes of an expression whose `!` it keeps may itself be negated in place.
proof fn lemma_negated_is_ok_to_negate(e: ExprView, in_bool_ctx: bool)
    requires
        keeps_bangs(e),
    ensures
        ok_to_negate_rhs(negated(e, in_bool_ctx)),
        ok_to_negate_for_cond(negated(e, in_bool_ctx)),
    decreases e,
{
    match e {
        ExprView::Bin { op, left, right, .. } => {
            if is_logical(op) && ok_to_negate_rhs(*right) {
                lemma_negated_is_ok_to_negate(*left, in_bool_ctx);
                lemma_negated_is_ok_to_negate(*right, in_bool_ctx);
            }
        },
        ExprView::Cond { cons, alt, .. } => {
            if ok_to_negate_for_cond(*cons) && ok_to_negate_for_cond(*alt) {
                lemma_negated_is_ok_to_negate(*cons, in_bool_ctx);
                lemma_negated_is_ok_to_negate(*alt, in_bool_ctx);
            }
        },
        ExprView::Sequence { exprs, .. } => {
            if exprs.len() > 0 {
                lemma_negated_is_ok_to_negate(exprs[exprs.len() - 1], in_bool_ctx);
            }
        },
        _ => {},
    }
}

/// Where negation takes no `!` away, negating the negation gives the expression back if only the
/// truth of the latter counts, whatever the context of the former.
pub proof fn law_negation_twice(e: ExprView, in_bool_ctx: bool)
    requires
        keeps_bangs(e),
    ensures
        negated(negated(e, in_bool_ctx), true) == e,
    decreases e,
{
    match e {
        ExprView::Bin { op, left, right, .. } => {
            if is_logical(op) && ok_to_negate_rhs(*right) {
                law_negation_twice(*left, in_bool_ctx);
                law_negation_twice(*right, in_bool_ctx);
                lemma_negated_is_ok_to_negate(*right, in_bool_ctx);
            }
        },
        ExprView::Cond { cons, alt, .. } => {
            if ok_to_negate_for_cond(*cons) && ok_to_negate_for_cond(*alt) {
                law_negation_twice(*cons, in_bool_ctx);
                law_negation_twice(*alt, in_bool_ctx);
                lemma_negated_is_ok_to_negate(*cons, in_bool_ctx);
                lemma_negated_is_ok_to_negate(*alt, in_bool_ctx);
            }
        },
        ExprView::Sequence { exprs, .. } => {
            if exprs.len() > 0 {
                let n = exprs.len() - 1;
                law_negation_twice(exprs[n], in_bool_ctx);
                assert(negated(negated(e, in_bool_ctx), true)->exprs =~= exprs);
            }
        },
        _ => {},
    }
}

/// Where only the truth counts, taking a `!` away is efficient, unless it stands in front of the
/// call of a function expression.
pub proof fn law_removing_bang_is_efficient(e: ExprView, is_ret_val_ignored: bool)
    requires
        e matches ExprView::Unary { op: UnaryOp::Bang, arg, .. } && !calls_fn_expr(*arg),
    ensures
        cost_of_negation(e, true, is_ret_val_ignored) < 0,
        negated(e, true) == *e->arg,
{
}

/// In a boolean context the cost of negating `!x` is the opposite of that of negating `x`, and at
/// most -1, unless `x` calls a function expression on the spot.
pub proof fn law_cost_of_bang(e: ExprView, is_ret_val_ignored: bool)
    requires
        e matches ExprView::Unary { op: UnaryOp::Bang, arg, .. } && !calls_fn_expr(*arg),
    ensures
        ({
            let cost = cost_of_negation(e, true, is_ret_val_ignored);
            let inner = cost_of_negation(*e->arg, true, is_ret_val_ignored);
            cost == if -inner < -1 {
                -inner
            } else {
                -1
            }
        }),
{
}

/// The cost of negating `l && r` or `l || r` adds up those of the operands, the left one never
/// taken as ignored; a right operand whose value is read and that may not be negated in place
/// costs 3.
pub proof fn law_cost_of_logical(e: ExprView, in_bool_ctx: bool, is_ret_val_ignored: bool)
    requires
        e matches ExprView::Bin { op, .. } && is_logical(op),
    ensures
        cost_of_negation(e, in_bool_ctx, is_ret_val_ignored) == cost_of_negation(
            *e->Bin_left,
            in_bool_ctx,
            false,
        ) + if !is_ret_val_ignored && !ok_to_negate_rhs(*e->Bin_right) {
            3
        } else {
            cost_of_negation(*e->Bin_right, in_bool_ctx, is_ret_val_ignored)
        },
{
}

/// The cost of negating a conditional adds up those of its branches, and is 3 if one of them is
/// an update. The test does not count.
pub proof fn law_cost_of_conditional(e: ExprView, in_bool_ctx: bool, is_ret_val_ignored: bool)
    requires
        e is Cond,
    ensures
        cost_of_negation(e, in_bool_ctx, is_ret_val_ignored) == if ok_to_negate_for_cond(*e->cons)
            && ok_to_negate_for_cond(*e->alt) {
            cost_of_negation(*e->cons, in_bool_ctx, is_ret_val_ignored) + cost_of_negation(
                *e->alt,
                in_bool_ctx,
                is_ret_val_ignored,
            )
        } else {
            3
        },
{
}

/// The cost of negating a sequence is that of negating its last expression; an empty one costs 1,
/// or nothing if its value is ignored.
pub proof fn law_cost_of_sequence(e: ExprView, in_bool_ctx: bool, is_ret_val_ignored: bool)
    requires
        e is Sequence,
    ensures
        e->exprs.len() > 0 ==> cost_of_negation(e, in_bool_ctx, is_ret_val_ignored)
            == cost_of_negation(e->exprs[e->exprs.len() - 1], in_bool_ctx, is_ret_val_ignored),
        e->exprs.len() == 0 ==> cost_of_negation(e, in_bool_ctx, is_ret_val_ignored) == if
            is_ret_val_ignored {
            0int
        } else {
            1
        },
{
}

/// Whether control reaches the end of the statement `s` at `path` when each `if` goes the way that
/// `takes_cons` tells for its place and for what stands there. A path lists the index of each
/// block's statement, and 0 or 1 for the branch of each `if`.
pub open spec fn completes(
    takes_cons: spec_fn(Seq<int>, StmtView) -> bool,
    path: Seq<int>,
    s: StmtView,
) -> bool
    decreases s,
{
    match s {
        StmtView::Return | StmtView::Throw | StmtView::Break | StmtView::Continue => false,
        StmtView::If { cons, alt } => if takes_cons(path, s) {
            completes(takes_cons, path.push(0), *cons)
        } else {
            match alt {
                Some(alt) => completes(takes_cons, path.push(1), *alt),
                None => true,
            }
        },
        StmtView::Block { stmts } => forall|i: int|
            0 <= i < stmts.len() ==> completes(takes_cons, path.push(i), #[trigger] stmts[i]),
        StmtView::Expr { .. } | StmtView::Other => true,
    }
}

/// A statement whose end is reached on some way through it does not always terminate.
proof fn lemma_completing(
    takes_cons: spec_fn(Seq<int>, StmtView) -> bool,
    path: Seq<int>,
    s: StmtView,
)
    requires
        completes(takes_cons, path, s),
    ensures
        !terminates(s),
    decreases s,
{
    match s {
        StmtView::If { cons, alt } => {
            if takes_cons(path, s) {
                lemma_completing(takes_cons, path.push(0), *cons);
            } else if let Some(alt) = alt {
                lemma_completing(takes_cons, path.push(1), *alt);
            }
        },
        StmtView::Block { stmts } => {
            assert forall|i: int| 0 <= i < stmts.len() implies !terminates(#[trigger] stmts[i]) by {
                lemma_completing(takes_cons, path.push(i), stmts[i]);
            }
        },
        _ => {},
    }
}

/// Goes into the branch of an `if` that does not always terminate.
spec fn avoids_jumps() -> spec_fn(Seq<int>, StmtView) -> bool {
    |path: Seq<int>, s: StmtView| s matches StmtView::If { cons, .. } && !terminates(*cons)
}

/// The end of a statement that does not always terminate is reached on some way through it.
proof fn lemma_not_terminating(path: Seq<int>, s: StmtView)
    requires
        !terminates(s),
    ensures
        completes(avoids_jumps(), path, s),
    decreases s,
{
    match s {
        StmtView::If { cons, alt } => {
            if !terminates(*cons) {
                lemma_not_terminating(path.push(0), *cons);
            } else if let Some(alt) = alt {
                lemma_not_terminating(path.push(1), *alt);
            }
        },
        StmtView::Block { stmts } => {
            assert forall|i: int| 0 <= i < stmts.len() implies completes(
                avoids_jumps(),
                path.push(i),
                #[trigger] stmts[i],
            ) by {
                lemma_not_terminating(path.push(i), stmts[i]);
            }
        },
        _ => {},
    }
}

/// A statement always terminates exactly where control does not reach its end, whichever way each
/// `if` in it goes.
pub proof fn law_terminating_never_completes(path: Seq<int>, s: StmtView)
    ensures
        terminates(s) <==> forall|takes_cons: spec_fn(Seq<int>, StmtView) -> bool|
            !(#[trigger] completes(takes_cons, path, s)),
{
    if terminates(s) {
        assert forall|takes_cons: spec_fn(Seq<int>, StmtView) -> bool| !(#[trigger] completes(
            takes_cons,
            path,
            s,
        )) by {
            if completes(takes_cons, path, s) {
                lemma_completing(takes_cons, path, s);
            }
        }
    } else {
        lemma_not_terminating(path, s);
    }
}

/// A block with a statement that always terminates does so too, and what follows that statement
/// makes no difference to this.
pub proof fn law_dead_code(before: Seq<StmtView>, s: StmtView, after: Seq<StmtView>)
    requires
        terminates(s),
    ensures
        terminates(StmtView::Block { stmts: before.push(s) }),
        terminates(StmtView::Block { stmts: before.push(s) + after }) == terminates(
            StmtView::Block { stmts: before.push(s) },
        ),
{
    let short = StmtView::Block { stmts: before.push(s) };
    let long = StmtView::Block { stmts: before.push(s) + after };
    assert(short->stmts[before.len() as int] == s);
    assert(long->stmts[before.len() as int] == s);
}

/// The identifier that was written into a target is the one read from it.
pub proof fn law_lhs_ident_read_back(e: PatOrExprView, id: ExprView)
    requires
        lhs_ident(e) is Some,
        id is Ident,
    ensures
        lhs_ident(with_lhs_ident(e, id)) == Some(id),
{
}

/// Writing the identifier of a target back into it changes nothing.
pub proof fn law_lhs_ident_write_back(e: PatOrExprView)
    requires
        lhs_ident(e) is Some,
    ensures
        with_lhs_ident(e, lhs_ident(e)->0) == e,
{
}

/// A call is computed only where it calls one of five functions of `Math` on arguments none of
/// which is spread or has side effects.
pub proof fn law_only_plain_math_calls(e: ExprView)
    requires
        e is Call,
        e->callee is Expr,
        number_plan(e) is Some,
    ensures
        args_are_plain(e->args),
        math_property(*e->callee->Expr_0) matches Some(name) && (name == "cos"@ || name == "sin"@
            || name == "max"@ || name == "min"@ || name == "pow"@),
{
}

}
