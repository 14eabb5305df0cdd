//! What a number plan computes, over any kind of numbers.

use crate::number::{
    all_some, arg_plans, args_are_plain, call_plan, math_property, number_plan, picks_max,
    picks_min, NumberPlanView, Pick,
};
use crate::spans::{
    law_number_ignores_spans, same_answer_up_to_spans, same_plan_up_to_spans, same_up_to_spans,
    Sameness,
};
use crate::syntax::{BinaryOp, ExprOrSpreadView, ExprOrSuperView, ExprView};
use vstd::prelude::*;

verus! {

/// A kind of numbers, by what can be done with them.
#[verifier::reject_recursive_types(N)]
pub struct Numbers<N> {
    pub sub: spec_fn(N, N) -> N,
    pub cos: spec_fn(N) -> N,
    pub sin: spec_fn(N) -> N,
    pub pow: spec_fn(N, N) -> N,
    pub pi: N,
    pub e: N,
    pub ln10: N,
    pub infinity: N,
    pub neg_infinity: N,
    /// Whether a number is neither infinite nor not a number at all.
    pub is_finite: spec_fn(N) -> bool,
    /// The order of finite numbers.
    pub le: spec_fn(N, N) -> bool,
    /// What an expression is when cast to a number, if that is known.
    pub cast: spec_fn(ExprView) -> Option<N>,
}

/// Whether the number at `i` is the last of the largest.
pub open spec fn is_last_largest<N>(numbers: Numbers<N>, v: Seq<N>, i: int) -> bool {
    &&& 0 <= i < v.len()
    &&& forall|j: int| 0 <= j < v.len() ==> (numbers.le)(#[trigger] v[j], v[i])
    &&& forall|j: int| i < j < v.len() ==> !(numbers.le)(v[i], #[trigger] v[j])
}

/// Whether the number at `i` is the first of the smallest.
pub open spec fn is_first_smallest<N>(numbers: Numbers<N>, v: Seq<N>, i: int) -> bool {
    &&& 0 <= i < v.len()
    &&& forall|j: int| 0 <= j < v.len() ==> (numbers.le)(v[i], #[trigger] v[j])
    &&& forall|j: int| 0 <= j < i ==> !(numbers.le)(#[trigger] v[j], v[i])
}

/// Whether every one of `v` is finite.
pub open spec fn are_finite<N>(numbers: Numbers<N>, v: Seq<N>) -> bool {
    forall|i: int| 0 <= i < v.len() ==> (numbers.is_finite)(#[trigger] v[i])
}

/// The largest of `v`, the last one among equals: negative infinity if there are none, and
/// unknown if one of them is not finite.
pub open spec fn max_of<N>(numbers: Numbers<N>, v: Seq<N>) -> Option<N> {
    if !are_finite(numbers, v) {
        None
    } else if v.len() == 0 {
        Some(numbers.neg_infinity)
    } else {
        Some(v[choose|i: int| is_last_largest(numbers, v, i)])
    }
}

/// The smallest of `v`, the first one among equals: infinity if there are none, and unknown if one
/// of them is not finite.
pub open spec fn min_of<N>(numbers: Numbers<N>, v: Seq<N>) -> Option<N> {
    if !are_finite(numbers, v) {
        None
    } else if v.len() == 0 {
        Some(numbers.infinity)
    } else {
        Some(v[choose|i: int| is_first_smallest(numbers, v, i)])
    }
}

/// `f` of a number, if that is known.
pub open spec fn applied<N>(f: spec_fn(N) -> N, x: Option<N>) -> Option<N> {
    match x {
        Some(x) => Some(f(x)),
        None => None,
    }
}

/// `f` of two numbers, if both are known.
pub open spec fn combined<N>(f: spec_fn(N, N) -> N, x: Option<N>, y: Option<N>) -> Option<N> {
    match (x, y) {
        (Some(x), Some(y)) => Some(f(x, y)),
        _ => None,
    }
}

/// The largest of several numbers, if all are known.
pub open spec fn known_max<N>(numbers: Numbers<N>, v: Seq<Option<N>>) -> Option<N> {
    match all_some(v) {
        Some(v) => max_of(numbers, v),
        None => None,
    }
}

/// The smallest of several numbers, if all are known.
pub open spec fn known_min<N>(numbers: Numbers<N>, v: Seq<Option<N>>) -> Option<N> {
    match all_some(v) {
        Some(v) => min_of(numbers, v),
        None => None,
    }
}

/// The number that `plan` computes, if all that it casts is known.
pub open spec fn value<N>(numbers: Numbers<N>, plan: NumberPlanView) -> Option<N>
    decreases plan,
{
    match plan {
        NumberPlanView::Sub(l, r) => combined(numbers.sub, value(numbers, *l), value(numbers, *r)),
        NumberPlanView::Cos(x) => applied(numbers.cos, value(numbers, *x)),
        NumberPlanView::Sin(x) => applied(numbers.sin, value(numbers, *x)),
        NumberPlanView::Max(v) => known_max(numbers, values(numbers, v)),
        NumberPlanView::Min(v) => known_min(numbers, values(numbers, v)),
        NumberPlanView::Pow(l, r) => combined(numbers.pow, value(numbers, *l), value(numbers, *r)),
        NumberPlanView::Pi => Some(numbers.pi),
        NumberPlanView::E => Some(numbers.e),
        NumberPlanView::Ln10 => Some(numbers.ln10),
        NumberPlanView::Cast(e) => (numbers.cast)(e),
    }
}

/// The number that each of `plans` computes.
pub open spec fn values<N>(numbers: Numbers<N>, plans: Seq<NumberPlanView>) -> Seq<Option<N>>
    decreases plans,
{
    Seq::new(
        plans.len(),
        |i: int|
            if 0 <= i < plans.len() {
                value(numbers, plans[i])
            } else {
                None
            },
    )
}

/// The value of `e` as a number, if it is known.
pub open spec fn number_value<N>(numbers: Numbers<N>, e: ExprView) -> Option<N> {
    match number_plan(e) {
        Some(plan) => value(numbers, plan),
        None => None,
    }
}

/// The value of each argument as a number.
pub open spec fn arg_values<N>(numbers: Numbers<N>, args: Seq<ExprOrSpreadView>) -> Seq<Option<N>> {
    args.map_values(|arg: ExprOrSpreadView| number_value(numbers, arg.expr))
}

/// The value of `Math.name(args)` from the values of the arguments.
pub open spec fn math_value<N>(
    numbers: Numbers<N>,
    name: Seq<char>,
    args: Seq<Option<N>>,
) -> Option<N> {
    if name == "cos"@ {
        if args.len() > 0 {
            applied(numbers.cos, args[0])
        } else {
            None
        }
    } else if name == "sin"@ {
        if args.len() > 0 {
            applied(numbers.sin, args[0])
        } else {
            None
        }
    } else if name == "max"@ {
        known_max(numbers, args)
    } else if name == "min"@ {
        known_min(numbers, args)
    } else if name == "pow"@ {
        if args.len() == 2 {
            combined(numbers.pow, args[0], args[1])
        } else {
            None
        }
    } else {
        None
    }
}

/// Whether `keys` stand for the numbers `v`: a key for each finite one and for no other, ordered
/// as the numbers are.
pub open spec fn are_keys_of<N>(numbers: Numbers<N>, keys: Seq<Option<i64>>, v: Seq<N>) -> bool {
    &&& keys.len() == v.len()
    &&& forall|i: int|
        0 <= i < v.len() ==> ((#[trigger] keys[i]) is Some <==> (numbers.is_finite)(v[i]))
    &&& forall|i: int, j: int|
        0 <= i < v.len() && 0 <= j < v.len() && keys[i] is Some && keys[j] is Some ==> ((
        #[trigger] keys[i])->0 <= (#[trigger] keys[j])->0 <==> (numbers.le)(v[i], v[j]))
}

/// The number that `pick` tells to take from `v`.
pub open spec fn picked<N>(numbers: Numbers<N>, v: Seq<N>, pick: Pick) -> Option<N> {
    match pick {
        Pick::Rejected => None,
        Pick::NegInfinity => Some(numbers.neg_infinity),
        Pick::Infinity => Some(numbers.infinity),
        Pick::At(i) => Some(v[i as int]),
    }
}

/// [`pick_max`](crate::number::pick_max) tells the largest of the numbers that its keys stand for.
pub proof fn law_pick_max<N>(
    numbers: Numbers<N>,
    v: Seq<N>,
    keys: Seq<Option<i64>>,
    pick: Pick,
)
    requires
        are_keys_of(numbers, keys, v),
        picks_max(keys, pick),
    ensures
        picked(numbers, v, pick) == max_of(numbers, v),
{
    match pick {
        Pick::Rejected => {
            let i = choose|i: int| 0 <= i < keys.len() && (#[trigger] keys[i]) is None;
            assert(!(numbers.is_finite)(v[i]));
        },
        Pick::At(i) => {
            let i = i as int;
            assert forall|j: int| 0 <= j < v.len() implies (numbers.is_finite)(#[trigger] v[j]) by {
                assert(keys[j] is Some);
            }
            assert forall|j: int| 0 <= j < v.len() implies (numbers.le)(#[trigger] v[j], v[i]) by {
                assert(keys[j]->0 <= keys[i]->0);
            }
            assert forall|j: int| i < j < v.len() implies !(numbers.le)(v[i], #[trigger] v[j]) by {
                assert(keys[j]->0 < keys[i]->0);
            }
            assert(is_last_largest(numbers, v, i));
            let c = choose|c: int| is_last_largest(numbers, v, c);
            assert((numbers.le)(v[c], v[i]) && (numbers.le)(v[i], v[c]));
        },
        _ => {},
    }
}

/// [`pick_min`](crate::number::pick_min) tells the smallest of the numbers that its keys stand for.
pub proof fn law_pick_min<N>(
    numbers: Numbers<N>,
    v: Seq<N>,
    keys: Seq<Option<i64>>,
    pick: Pick,
)
    requires
        are_keys_of(numbers, keys, v),
        picks_min(keys, pick),
    ensures
        picked(numbers, v, pick) == min_of(numbers, v),
{
    match pick {
        Pick::Rejected => {
            let i = choose|i: int| 0 <= i < keys.len() && (#[trigger] keys[i]) is None;
            assert(!(numbers.is_finite)(v[i]));
        },
        Pick::At(i) => {
            let i = i as int;
            assert forall|j: int| 0 <= j < v.len() implies (numbers.is_finite)(#[trigger] v[j]) by {
                assert(keys[j] is Some);
            }
            assert forall|j: int| 0 <= j < v.len() implies (numbers.le)(v[i], #[trigger] v[j]) by {
                assert(keys[i]->0 <= keys[j]->0);
            }
            assert forall|j: int| 0 <= j < i implies !(numbers.le)(#[trigger] v[j], v[i]) by {
                assert(keys[i]->0 < keys[j]->0);
            }
            assert(is_first_smallest(numbers, v, i));
            let c = choose|c: int| is_first_smallest(numbers, v, c);
            assert((numbers.le)(v[c], v[i]) && (numbers.le)(v[i], v[c]));
        },
        _ => {},
    }
}

/// The value of a difference is the difference of the values, if both are known.
pub proof fn law_value_of_difference<N>(numbers: Numbers<N>, e: ExprView)
    requires
        e matches ExprView::Bin { op: BinaryOp::Sub, .. },
    ensures
        number_value(numbers, e) == combined(
            numbers.sub,
            number_value(numbers, *e->Bin_left),
            number_value(numbers, *e->Bin_right),
        ),
{
}

/// The value of a call is that of the function of `Math` that is called, on the values of the
/// arguments; of any other call, and of one with a spread argument or one that may have side
/// effects, it is unknown.
pub proof fn law_value_of_call<N>(numbers: Numbers<N>, e: ExprView)
    requires
        e is Call,
        e->callee is Expr,
    ensures
        number_value(numbers, e) == match math_property(*e->callee->Expr_0) {
            Some(name) if args_are_plain(e->args) => math_value(
                numbers,
                name,
                arg_values(numbers, e->args),
            ),
            _ => None,
        },
{
    let args = e->args;
    let plans = arg_plans(args);
    let found = arg_values(numbers, args);
    assert forall|i: int|
        #![trigger plans[i]]
        #![trigger found[i]]
        0 <= i < args.len() implies plans[i] == number_plan(args[i].expr) && found[i]
        == match plans[i] {
        Some(plan) => value(numbers, plan),
        None => None,
    } by {}
    assert(number_plan(e) == call_plan(
        math_property(*e->callee->Expr_0),
        plans,
        args_are_plain(args),
    ));
    match all_some(plans) {
        Some(p) => {
            assert(values(numbers, p) =~= found);
        },
        None => {
            let i = choose|i: int| 0 <= i < plans.len() && (#[trigger] plans[i]) is None;
            assert(found[i] is None);
        },
    }
}

/// The constants of `Math` have their values; other members that are not computed have none.
pub proof fn law_value_of_member<N>(numbers: Numbers<N>, e: ExprView)
    requires
        e matches ExprView::Member { obj: ExprOrSuperView::Expr(_), computed: false, .. },
    ensures
        number_value(numbers, e) == match math_property(e) {
            Some(name) => if name == "PI"@ {
                Some(numbers.pi)
            } else if name == "E"@ {
                Some(numbers.e)
            } else if name == "LN10"@ {
                Some(numbers.ln10)
            } else {
                None
            },
            None => None,
        },
{
}

/// Whether the form of `e` is one that is computed from its parts, or known not to be a number.
pub open spec fn is_taken_apart(e: ExprView) -> bool {
    match e {
        ExprView::Bin { op, .. } => op == BinaryOp::Sub,
        ExprView::Call { callee, .. } => callee is Expr,
        ExprView::Member { obj, computed, .. } => obj is Expr && !computed,
        _ => false,
    }
}

/// The value of any other expression is what it is when cast to a number.
pub proof fn law_value_of_other<N>(numbers: Numbers<N>, e: ExprView)
    requires
        !is_taken_apart(e),
    ensures
        number_value(numbers, e) == (numbers.cast)(e),
{
}

/// Whether casting an expression to a number reads no spans.
pub open spec fn cast_ignores_spans<N>(numbers: Numbers<N>, same: Sameness) -> bool {
    forall|a: ExprView, b: ExprView| #[trigger]
        same_up_to_spans(same, a, b) ==> (numbers.cast)(a) == (numbers.cast)(b)
}

/// Plans that differ in spans alone compute the same number.
proof fn lemma_value_ignores_spans<N>(
    numbers: Numbers<N>,
    same: Sameness,
    p: NumberPlanView,
    q: NumberPlanView,
)
    requires
        cast_ignores_spans(numbers, same),
        same_plan_up_to_spans(same, p, q),
    ensures
        value(numbers, p) == value(numbers, q),
    decreases p,
{
    match (p, q) {
        (NumberPlanView::Sub(l, r), NumberPlanView::Sub(m, s)) => {
            lemma_value_ignores_spans(numbers, same, *l, *m);
            lemma_value_ignores_spans(numbers, same, *r, *s);
        },
        (NumberPlanView::Pow(l, r), NumberPlanView::Pow(m, s)) => {
            lemma_value_ignores_spans(numbers, same, *l, *m);
            lemma_value_ignores_spans(numbers, same, *r, *s);
        },
        (NumberPlanView::Cos(x), NumberPlanView::Cos(y)) => {
            lemma_value_ignores_spans(numbers, same, *x, *y);
        },
        (NumberPlanView::Sin(x), NumberPlanView::Sin(y)) => {
            lemma_value_ignores_spans(numbers, same, *x, *y);
        },
        (NumberPlanView::Max(x), NumberPlanView::Max(y)) => {
            assert forall|i: int| 0 <= i < x.len() implies value(numbers, #[trigger] x[i]) == value(
                numbers,
                y[i],
            ) by {
                lemma_value_ignores_spans(numbers, same, x[i], y[i]);
            }
            assert(values(numbers, x) =~= values(numbers, y));
        },
        (NumberPlanView::Min(x), NumberPlanView::Min(y)) => {
            assert forall|i: int| 0 <= i < x.len() implies value(numbers, #[trigger] x[i]) == value(
                numbers,
                y[i],
            ) by {
                lemma_value_ignores_spans(numbers, same, x[i], y[i]);
            }
            assert(values(numbers, x) =~= values(numbers, y));
        },
        _ => {},
    }
}

/// Where casting reads no spans, expressions that differ in spans alone have the same value, or
/// both none that is known.
pub proof fn law_value_ignores_spans<N>(
    numbers: Numbers<N>,
    same: Sameness,
    a: ExprView,
    b: ExprView,
)
    requires
        cast_ignores_spans(numbers, same),
        same_up_to_spans(same, a, b),
    ensures
        number_value(numbers, a) == number_value(numbers, b),
{
    law_number_ignores_spans(same, a, b);
    if let (Some(p), Some(q)) = (number_plan(a), number_plan(b)) {
        assert(same_answer_up_to_spans(same, Some(p), Some(q)));
        lemma_value_ignores_spans(numbers, same, p, q);
    }
}

}
