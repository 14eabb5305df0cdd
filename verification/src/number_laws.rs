//! Which numbers are computed, told from the expression as it is written.

use crate::effects::has_effects;
use crate::number::{
    arg_plans, args_are_plain, call_plan, math_property, number_plan, picks_max, picks_min,
    plans_of, NumberPlanView, Pick,
};
use crate::syntax::{BinaryOp, ExprOrSpread, ExprOrSpreadView, ExprOrSuperView, ExprView};
use vstd::prelude::*;

verus! {

/// Whether `e` is written as `Math.name`.
pub open spec fn is_math_dot(e: ExprView, name: Seq<char>) -> bool {
    e matches ExprView::Member { obj: ExprOrSuperView::Expr(obj), prop, computed: false, .. } && (
    *obj matches ExprView::Ident { sym: object, .. } && object == "Math"@) && (
    *prop matches ExprView::Ident { sym: property, .. } && property == name)
}

/// Whether some argument is spread or may have side effects.
pub open spec fn some_arg_is_not_plain(args: Seq<ExprOrSpreadView>) -> bool {
    exists|i: int|
        0 <= i < args.len() && ((#[trigger] args[i]).spread is Some || has_effects(args[i].expr))
}

/// The property that is read off `Math` is the one that is written.
pub proof fn law_property_is_as_written(e: ExprView)
    ensures
        forall|name: Seq<char>| (math_property(e) == Some(name)) == #[trigger] is_math_dot(e, name),
{
}

/// No two of the names of the functions and constants are the same.
proof fn lemma_names_differ()
    ensures
        "cos"@ != "sin"@ && "cos"@ != "max"@ && "cos"@ != "min"@ && "cos"@ != "pow"@,
        "sin"@ != "max"@ && "sin"@ != "min"@ && "sin"@ != "pow"@,
        "max"@ != "min"@ && "max"@ != "pow"@ && "min"@ != "pow"@,
        "PI"@ != "E"@ && "PI"@ != "LN10"@ && "E"@ != "LN10"@,
{
    reveal_strlit("cos");
    reveal_strlit("sin");
    reveal_strlit("max");
    reveal_strlit("min");
    reveal_strlit("pow");
    reveal_strlit("PI");
    reveal_strlit("E");
    reveal_strlit("LN10");
    assert("cos"@[0] == 'c' && "sin"@[0] == 's' && "pow"@[0] == 'p');
    assert("max"@[0] == 'm' && "min"@[0] == 'm' && "max"@[1] == 'a' && "min"@[1] == 'i');
    assert("PI"@.len() == 2 && "E"@.len() == 1 && "LN10"@.len() == 4);
}

/// A call of a function of `Math` is computed by the function of that name, from its arguments in
/// their order, and by no other: `cos` and `sin` from the first, `max` and `min` from all, `pow` from
/// exactly two. No other function is computed, and none on arguments that are not plain.
pub proof fn law_function_is_the_one_named(
    name: Seq<char>,
    args: Seq<Option<NumberPlanView>>,
    has_plain_args: bool,
)
    ensures
        ({
            let plan = call_plan(Some(name), args, has_plain_args);
            let all_known = forall|i: int| 0 <= i < args.len() ==> (#[trigger] args[i]) is Some;
            &&& call_plan(None, args, has_plain_args) is None
            &&& !has_plain_args ==> plan is None
            &&& name != "cos"@ && name != "sin"@ && name != "max"@ && name != "min"@ && name
                != "pow"@ ==> plan is None
            &&& has_plain_args && name == "cos"@ ==> match plan {
                Some(p) => p is Cos && args.len() > 0 && args[0] == Some(*p->Cos_0),
                None => args.len() == 0 || args[0] is None,
            }
            &&& has_plain_args && name == "sin"@ ==> match plan {
                Some(p) => p is Sin && args.len() > 0 && args[0] == Some(*p->Sin_0),
                None => args.len() == 0 || args[0] is None,
            }
            &&& has_plain_args && name == "max"@ ==> match plan {
                Some(p) => p is Max && p->Max_0.len() == args.len() && forall|i: int|
                    0 <= i < args.len() ==> #[trigger] args[i] == Some(p->Max_0[i]),
                None => !all_known,
            }
            &&& has_plain_args && name == "min"@ ==> match plan {
                Some(p) => p is Min && p->Min_0.len() == args.len() && forall|i: int|
                    0 <= i < args.len() ==> #[trigger] args[i] == Some(p->Min_0[i]),
                None => !all_known,
            }
            &&& has_plain_args && name == "pow"@ ==> match plan {
                Some(p) => p is Pow && args.len() == 2 && args[0] == Some(*p->Pow_0) && args[1]
                    == Some(*p->Pow_1),
                None => args.len() != 2 || args[0] is None || args[1] is None,
            }
        }),
{
    lemma_names_differ();
}

/// A call has a plan only where it is written as `Math.cos`, `Math.sin`, `Math.max`, `Math.min` or
/// `Math.pow` on arguments none of which is spread or may have side effects, and the plan is the one
/// of that name, made of the plans of the arguments in their order.
pub proof fn law_call_as_written(e: ExprView)
    requires
        e is Call,
        e->callee is Expr,
    ensures
        ({
            let f = *e->callee->Expr_0;
            let args = e->args;
            let plan = number_plan(e);
            &&& some_arg_is_not_plain(args) ==> plan is None
            &&& plan matches Some(p) ==> ({
                ||| is_math_dot(f, "cos"@) && p is Cos
                ||| is_math_dot(f, "sin"@) && p is Sin
                ||| is_math_dot(f, "max"@) && p is Max
                ||| is_math_dot(f, "min"@) && p is Min
                ||| is_math_dot(f, "pow"@) && p is Pow
            })
            &&& plan matches Some(NumberPlanView::Cos(x)) ==> args.len() > 0 && number_plan(
                args[0].expr,
            ) == Some(*x)
            &&& plan matches Some(NumberPlanView::Sin(x)) ==> args.len() > 0 && number_plan(
                args[0].expr,
            ) == Some(*x)
            &&& plan matches Some(NumberPlanView::Max(v)) ==> v.len() == args.len() && forall|i: int|
                0 <= i < args.len() ==> number_plan((#[trigger] args[i]).expr) == Some(v[i])
            &&& plan matches Some(NumberPlanView::Min(v)) ==> v.len() == args.len() && forall|i: int|
                0 <= i < args.len() ==> number_plan((#[trigger] args[i]).expr) == Some(v[i])
            &&& plan matches Some(NumberPlanView::Pow(x, y)) ==> args.len() == 2 && number_plan(
                args[0].expr,
            ) == Some(*x) && number_plan(args[1].expr) == Some(*y)
        }),
{
    lemma_call(e);
}

/// Where a call is so written and what it takes of its arguments can be computed, it has a plan.
pub proof fn law_call_is_computed(e: ExprView)
    requires
        e is Call,
        e->callee is Expr,
        !some_arg_is_not_plain(e->args),
    ensures
        ({
            let f = *e->callee->Expr_0;
            let args = e->args;
            &&& (is_math_dot(f, "cos"@) || is_math_dot(f, "sin"@)) && args.len() > 0 && number_plan(
                args[0].expr,
            ) is Some ==> number_plan(e) is Some
            &&& (is_math_dot(f, "max"@) || is_math_dot(f, "min"@)) && (forall|i: int|
                0 <= i < args.len() ==> number_plan((#[trigger] args[i]).expr) is Some)
                ==> number_plan(e) is Some
            &&& is_math_dot(f, "pow"@) && args.len() == 2 && number_plan(args[0].expr) is Some
                && number_plan(args[1].expr) is Some ==> number_plan(e) is Some
        }),
{
    lemma_call(e);
    lemma_names_differ();
}

/// Takes the plan of a call apart.
proof fn lemma_call(e: ExprView)
    requires
        e is Call,
        e->callee is Expr,
    ensures
        ({
            let args = arg_plans(e->args);
            let property = math_property(*e->callee->Expr_0);
            &&& args.len() == e->args.len()
            &&& forall|i: int|
                #![trigger args[i]]
                #![trigger e->args[i]]
                0 <= i < args.len() ==> args[i] == number_plan(e->args[i].expr)
            &&& number_plan(e) == call_plan(property, args, !some_arg_is_not_plain(e->args))
            &&& property matches Some(name) ==> is_math_dot(*e->callee->Expr_0, name)
            &&& forall|name: Seq<char>| #[trigger]
                is_math_dot(*e->callee->Expr_0, name) ==> property == Some(name)
        }),
{
    let args = e->args;
    assert(args_are_plain(args) == !some_arg_is_not_plain(args));
    let plans = arg_plans(args);
    assert forall|i: int|
        #![trigger plans[i]]
        #![trigger args[i]]
        0 <= i < plans.len() implies plans[i] == number_plan(args[i].expr) by {}
}

/// Each argument is computed as the expression that it is.
pub proof fn law_arguments_are_computed_alike(args: Seq<ExprOrSpread>)
    ensures
        plans_of(args).len() == args.len(),
        forall|i: int|
            0 <= i < args.len() ==> #[trigger] plans_of(args)[i] == number_plan(args[i].expr@),
{
}

/// A difference has a plan exactly where both sides have one, and takes the right from the left.
pub proof fn law_difference_as_written(e: ExprView)
    requires
        e matches ExprView::Bin { op: BinaryOp::Sub, .. },
    ensures
        number_plan(e) is Some == (number_plan(*e->Bin_left) is Some && number_plan(
            *e->Bin_right,
        ) is Some),
        number_plan(e) matches Some(p) ==> p is Sub && number_plan(*e->Bin_left) == Some(*p->Sub_0)
            && number_plan(*e->Bin_right) == Some(*p->Sub_1),
{
}

/// A member that is not computed has a plan only where it is written as `Math.PI`, `Math.E` or
/// `Math.LN10`, and that is the constant of that name.
pub proof fn law_constant_as_written(e: ExprView)
    requires
        e matches ExprView::Member { obj: ExprOrSuperView::Expr(_), computed: false, .. },
    ensures
        (number_plan(e) == Some(NumberPlanView::Pi)) == is_math_dot(e, "PI"@),
        (number_plan(e) == Some(NumberPlanView::E)) == is_math_dot(e, "E"@),
        (number_plan(e) == Some(NumberPlanView::Ln10)) == is_math_dot(e, "LN10"@),
        number_plan(e) is Some ==> is_math_dot(e, "PI"@) || is_math_dot(e, "E"@) || is_math_dot(
            e,
            "LN10"@,
        ),
{
    lemma_names_differ();
}

/// Every other expression is cast to a number as it stands.
pub proof fn law_other_is_cast(e: ExprView)
    requires
        e matches ExprView::Bin { op, .. } ==> op != BinaryOp::Sub,
        e matches ExprView::Call { callee, .. } ==> callee is Super,
        e matches ExprView::Member { obj, computed, .. } ==> obj is Super || computed,
    ensures
        number_plan(e) == Some(NumberPlanView::Cast(e)),
{
}

/// There is one largest number to be picked: none where one is not finite, negative infinity where
/// there are none, and else the one after which all are smaller and before which none is larger.
pub proof fn law_one_largest(keys: Seq<Option<i64>>, pick: Pick)
    requires
        picks_max(keys, pick),
    ensures
        pick is Rejected == exists|i: int| 0 <= i < keys.len() && (#[trigger] keys[i]) is None,
        pick is NegInfinity == (keys.len() == 0),
        !(pick is Infinity),
        pick matches Pick::At(at) ==> at < keys.len() && keys[at as int] is Some && forall|i: int|
            0 <= i < keys.len() ==> (#[trigger] keys[i]) is Some && (if i <= at {
                keys[i]->0 <= keys[at as int]->0
            } else {
                keys[i]->0 < keys[at as int]->0
            }),
{
}

/// There is one smallest number to be picked: none where one is not finite, infinity where there
/// are none, and else the one before which all are larger and after which none is smaller.
pub proof fn law_one_smallest(keys: Seq<Option<i64>>, pick: Pick)
    requires
        picks_min(keys, pick),
    ensures
        pick is Rejected == exists|i: int| 0 <= i < keys.len() && (#[trigger] keys[i]) is None,
        pick is Infinity == (keys.len() == 0),
        !(pick is NegInfinity),
        pick matches Pick::At(at) ==> at < keys.len() && keys[at as int] is Some && forall|i: int|
            0 <= i < keys.len() ==> (#[trigger] keys[i]) is Some && (if i < at {
                keys[i]->0 > keys[at as int]->0
            } else {
                keys[i]->0 >= keys[at as int]->0
            }),
{
}

}
