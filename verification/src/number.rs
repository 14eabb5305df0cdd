//! Expressions whose value is a number that is known before the program runs.
//!
//! What has to be computed is decided here; the floating-point arithmetic is left to the caller.

use crate::effects::has_effects;
use crate::syntax::{
    BinaryOp, Expr, ExprOrSpread, ExprOrSpreadView, ExprOrSuper, ExprOrSuperView, ExprView,
};
use crate::text::same;
use vstd::prelude::*;

verus! {

/// How to compute a number; see [`value`](crate::value::value) for what comes out.
pub enum NumberPlan<'a> {
    /// The first number less the second.
    Sub(Box<NumberPlan<'a>>, Box<NumberPlan<'a>>),
    Cos(Box<NumberPlan<'a>>),
    Sin(Box<NumberPlan<'a>>),
    /// The largest of finite numbers; see [`pick_max`].
    Max(Vec<NumberPlan<'a>>),
    /// The smallest of finite numbers; see [`pick_min`].
    Min(Vec<NumberPlan<'a>>),
    /// The first number to the power of the second.
    Pow(Box<NumberPlan<'a>>, Box<NumberPlan<'a>>),
    Pi,
    E,
    Ln10,
    /// What the expression is when cast to a number, if that is known.
    Cast(&'a Expr),
}

/// The view of a [`NumberPlan`].
pub enum NumberPlanView {
    Sub(Box<NumberPlanView>, Box<NumberPlanView>),
    Cos(Box<NumberPlanView>),
    Sin(Box<NumberPlanView>),
    Max(Seq<NumberPlanView>),
    Min(Seq<NumberPlanView>),
    Pow(Box<NumberPlanView>, Box<NumberPlanView>),
    Pi,
    E,
    Ln10,
    Cast(ExprView),
}

impl<'a> NumberPlan<'a> {
    pub open spec fn view(self) -> NumberPlanView
        decreases self,
    {
        match self {
            NumberPlan::Sub(l, r) => NumberPlanView::Sub(Box::new(l.view()), Box::new(r.view())),
            NumberPlan::Cos(x) => NumberPlanView::Cos(Box::new(x.view())),
            NumberPlan::Sin(x) => NumberPlanView::Sin(Box::new(x.view())),
            NumberPlan::Max(v) => NumberPlanView::Max(
                Seq::new(
                    v@.len(),
                    |i: int|
                        if 0 <= i < v@.len() {
                            v@[i].view()
                        } else {
                            arbitrary()
                        },
                ),
            ),
            NumberPlan::Min(v) => NumberPlanView::Min(
                Seq::new(
                    v@.len(),
                    |i: int|
                        if 0 <= i < v@.len() {
                            v@[i].view()
                        } else {
                            arbitrary()
                        },
                ),
            ),
            NumberPlan::Pow(l, r) => NumberPlanView::Pow(Box::new(l.view()), Box::new(r.view())),
            NumberPlan::Pi => NumberPlanView::Pi,
            NumberPlan::E => NumberPlanView::E,
            NumberPlan::Ln10 => NumberPlanView::Ln10,
            NumberPlan::Cast(e) => NumberPlanView::Cast(e@),
        }
    }
}

/// The property that `e` reads off `Math`, where it has the form `Math.property`.
pub open spec fn math_property(e: ExprView) -> Option<Seq<char>> {
    match e {
        ExprView::Member { obj: ExprOrSuperView::Expr(obj), prop, computed, .. } => match (
            *obj,
            *prop,
        ) {
            (
                ExprView::Ident { sym: obj_sym, .. },
                ExprView::Ident { sym: prop_sym, .. },
            ) => if !computed && obj_sym == "Math"@ {
                Some(prop_sym)
            } else {
                None
            },
            _ => None,
        },
        _ => None,
    }
}

/// Whether no argument is spread or may have side effects.
pub open spec fn args_are_plain(args: Seq<ExprOrSpreadView>) -> bool {
    forall|i: int|
        0 <= i < args.len() ==> (#[trigger] args[i]).spread is None && !has_effects(args[i].expr)
}

/// The values, where each is there.
pub open spec fn all_some<T>(s: Seq<Option<T>>) -> Option<Seq<T>> {
    if forall|i: int| 0 <= i < s.len() ==> (#[trigger] s[i]) is Some {
        Some(s.map_values(|x: Option<T>| x->0))
    } else {
        None
    }
}

/// How to compute the value of `e`, where this can be told: differences, calls of a few functions
/// of `Math` on plain arguments, constants of `Math`, and what can be cast to a number as it
/// stands.
pub open spec fn number_plan(e: ExprView) -> Option<NumberPlanView>
    decreases e,
{
    match e {
        ExprView::Bin { op: BinaryOp::Sub, left, right, .. } => match (
            number_plan(*left),
            number_plan(*right),
        ) {
            (Some(l), Some(r)) => Some(NumberPlanView::Sub(Box::new(l), Box::new(r))),
            _ => None,
        },
        ExprView::Call { callee: ExprOrSuperView::Expr(callee), args, .. } => call_plan(
            math_property(*callee),
            arg_plans(args),
            args_are_plain(args),
        ),
        ExprView::Member { obj: ExprOrSuperView::Expr(_), computed: false, .. } => match math_property(
            e,
        ) {
            Some(name) => math_constant(name),
            None => None,
        },
        _ => Some(NumberPlanView::Cast(e)),
    }
}

/// How to compute the value of each argument of a call.
pub open spec fn arg_plans(args: Seq<ExprOrSpreadView>) -> Seq<Option<NumberPlanView>>
    decreases args,
{
    Seq::new(
        args.len(),
        |i: int|
            if 0 <= i < args.len() {
                number_plan(args[i].expr)
            } else {
                None
            },
    )
}

/// How to compute the value of each of `args`.
pub open spec fn plans_of(args: Seq<ExprOrSpread>) -> Seq<Option<NumberPlanView>> {
    args.map_values(|arg: ExprOrSpread| number_plan(arg.expr@))
}

/// How to compute a call whose callee reads `property` off `Math`, from how to compute each
/// argument. Only a call with plain arguments is computed.
pub open spec fn call_plan(
    property: Option<Seq<char>>,
    args: Seq<Option<NumberPlanView>>,
    has_plain_args: bool,
) -> Option<NumberPlanView> {
    match property {
        Some(name) if has_plain_args => math_call(name, args),
        _ => None,
    }
}

/// How to compute `Math.name(args)` from how to compute each argument. `cos` and `sin` read the
/// first argument and ignore the others; `max` and `min` take any number, `pow` takes two.
pub open spec fn math_call(name: Seq<char>, args: Seq<Option<NumberPlanView>>) -> Option<
    NumberPlanView,
> {
    if name == "cos"@ {
        if args.len() > 0 && args[0] is Some {
            Some(NumberPlanView::Cos(Box::new(args[0]->0)))
        } else {
            None
        }
    } else if name == "sin"@ {
        if args.len() > 0 && args[0] is Some {
            Some(NumberPlanView::Sin(Box::new(args[0]->0)))
        } else {
            None
        }
    } else if name == "max"@ {
        match all_some(args) {
            Some(plans) => Some(NumberPlanView::Max(plans)),
            None => None,
        }
    } else if name == "min"@ {
        match all_some(args) {
            Some(plans) => Some(NumberPlanView::Min(plans)),
            None => None,
        }
    } else if name == "pow"@ {
        if args.len() == 2 && args[0] is Some && args[1] is Some {
            Some(NumberPlanView::Pow(Box::new(args[0]->0), Box::new(args[1]->0)))
        } else {
            None
        }
    } else {
        None
    }
}

/// The constant `Math.name`.
pub open spec fn math_constant(name: Seq<char>) -> Option<NumberPlanView> {
    if name == "PI"@ {
        Some(NumberPlanView::Pi)
    } else if name == "E"@ {
        Some(NumberPlanView::E)
    } else if name == "LN10"@ {
        Some(NumberPlanView::Ln10)
    } else {
        None
    }
}

/// The property that `e` reads off `Math`, where it has the form `Math.property`.
fn get_math_property(e: &Expr) -> (r: Option<&str>)
    ensures
        r is Some == math_property(e@) is Some,
        r is Some ==> r->0@ == math_property(e@)->0,
{
    proof {
        reveal_with_fuel(Expr::view, 3);
        reveal_with_fuel(ExprOrSuper::view, 2);
    }
    match e {
        Expr::Member(member) => match (&member.obj, &*member.prop) {
            (ExprOrSuper::Expr(obj), Expr::Ident(prop)) => {
                match &**obj {
                    Expr::Ident(obj) => if !member.computed && same(obj.sym.as_str(), "Math") {
                        Some(prop.sym.as_str())
                    } else {
                        None
                    },
                    _ => None,
                }
            },
            _ => None,
        },
        _ => None,
    }
}

/// Whether no argument is spread or may have side effects.
fn has_plain_args(args: &Vec<ExprOrSpread>) -> (r: bool)
    ensures
        r == forall|i: int|
            0 <= i < args.len() ==> (#[trigger] args[i]).spread is None && !has_effects(
                args[i].expr@,
            ),
{
    let mut i: usize = 0;
    while i < args.len()
        invariant
            i <= args.len(),
            forall|j: int|
                0 <= j < i ==> (#[trigger] args[j]).spread is None && !has_effects(args[j].expr@),
        decreases args.len() - i,
    {
        if args[i].spread.is_some() || args[i].expr.may_have_side_effects() {
            return false;
        }
        i += 1;
    }
    true
}

/// How to compute each argument, where this can be told of all of them.
fn plan_all<'a>(args: &'a Vec<ExprOrSpread>) -> (r: Option<Vec<NumberPlan<'a>>>)
    ensures
        r is Some == forall|i: int|
            0 <= i < args.len() ==> number_plan((#[trigger] args[i]).expr@) is Some,
        r is Some ==> r->0.len() == args.len() && forall|i: int|
            0 <= i < args.len() ==> (#[trigger] r->0[i])@ == number_plan(args[i].expr@)->0,
    decreases args, 0nat,
{
    let mut plans: Vec<NumberPlan<'a>> = Vec::new();
    let mut i: usize = 0;
    while i < args.len()
        invariant
            i <= args.len(),
            plans.len() == i,
            forall|j: int| 0 <= j < i ==> number_plan((#[trigger] args[j]).expr@) is Some,
            forall|j: int|
                0 <= j < i ==> (#[trigger] plans[j])@ == number_plan(args[j].expr@)->0,
        decreases args.len() - i,
    {
        assert(decreases_to!(*args => args[i as int]));
        match eval_as_number(&args[i].expr) {
            Some(plan) => plans.push(plan),
            None => {
                return None;
            },
        }
        i += 1;
    }
    Some(plans)
}

/// How to compute the value of the call of `callee` on `args` as a number, where this can be told.
/// `has_plain_args` tells whether no argument is spread or may have side effects.
pub fn eval_call_as_number<'a>(
    callee: &Expr,
    args: &'a Vec<ExprOrSpread>,
    has_plain_args: bool,
) -> (r: Option<NumberPlan<'a>>)
    ensures
        r is Some == call_plan(
            math_property(callee@),
            plans_of(args@),
            has_plain_args,
        ) is Some,
        r is Some ==> r->0@ == call_plan(
            math_property(callee@),
            plans_of(args@),
            has_plain_args,
        )->0,
    decreases args, 1nat,
{
    proof {
        assert forall|i: int|
            #![trigger args[i]]
            #![trigger plans_of(args@)[i]]
            0 <= i < args.len() implies plans_of(args@)[i] == number_plan(args[i].expr@) by {}
    }
    if !has_plain_args {
        return None;
    }
    let name = get_math_property(callee)?;
    if same(name, "cos") {
        if args.len() == 0 {
            return None;
        }
        assert(decreases_to!(*args => args[0]));
        let v = eval_as_number(&args[0].expr)?;
        Some(NumberPlan::Cos(Box::new(v)))
    } else if same(name, "sin") {
        if args.len() == 0 {
            return None;
        }
        assert(decreases_to!(*args => args[0]));
        let v = eval_as_number(&args[0].expr)?;
        Some(NumberPlan::Sin(Box::new(v)))
    } else if same(name, "max") {
        let numbers = plan_all(args)?;
        let r = NumberPlan::Max(numbers);
        proof {
            assert(r@->Max_0 =~= all_some(plans_of(args@))->0);
        }
        Some(r)
    } else if same(name, "min") {
        let numbers = plan_all(args)?;
        let r = NumberPlan::Min(numbers);
        proof {
            assert(r@->Min_0 =~= all_some(plans_of(args@))->0);
        }
        Some(r)
    } else if same(name, "pow") {
        if args.len() != 2 {
            return None;
        }
        assert(decreases_to!(*args => args[0]));
        assert(decreases_to!(*args => args[1]));
        let first = eval_as_number(&args[0].expr)?;
        let second = eval_as_number(&args[1].expr)?;
        Some(NumberPlan::Pow(Box::new(first), Box::new(second)))
    } else {
        None
    }
}

/// How to compute the value of `e` as a number, where this can be told.
///
/// This is used to test whether a whole call can be replaced, while standalone constants stay as
/// they are.
pub fn eval_as_number<'a>(e: &'a Expr) -> (r: Option<NumberPlan<'a>>)
    ensures
        r is Some == number_plan(e@) is Some,
        r is Some ==> r->0@ == number_plan(e@)->0,
    decreases e, 0nat,
{
    match e {
        Expr::Bin(bin) if bin.op == BinaryOp::Sub => {
            let l = eval_as_number(&bin.left)?;
            let r = eval_as_number(&bin.right)?;
            Some(NumberPlan::Sub(Box::new(l), Box::new(r)))
        },
        Expr::Call(call) => match &call.callee {
            ExprOrSuper::Expr(callee) => {
                proof {
                    let args = e@->args;
                    assert(call.callee@ == ExprOrSuperView::Expr(Box::new(callee@)));
                    assert(args.len() == call.args.len());
                    assert forall|i: int|
                        #![trigger args[i]]
                        #![trigger call.args[i]]
                        0 <= i < args.len() implies args[i].spread == call.args[i].spread
                        && args[i].expr == call.args[i].expr@ by {}
                    assert(arg_plans(args) =~= plans_of(call.args@));
                }
                eval_call_as_number(callee, &call.args, has_plain_args(&call.args))
            },
            ExprOrSuper::Super(_) => Some(NumberPlan::Cast(e)),
        },
        Expr::Member(member) if !member.computed => match &member.obj {
            ExprOrSuper::Expr(_) => {
                assert(member.obj@ is Expr);
                let name = get_math_property(e)?;
                if same(name, "PI") {
                    Some(NumberPlan::Pi)
                } else if same(name, "E") {
                    Some(NumberPlan::E)
                } else if same(name, "LN10") {
                    Some(NumberPlan::Ln10)
                } else {
                    None
                }
            },
            ExprOrSuper::Super(_) => Some(NumberPlan::Cast(e)),
        },
        _ => Some(NumberPlan::Cast(e)),
    }
}

/// Which of several numbers was picked.
#[derive(Clone, Copy, Debug, PartialEq, Eq, Structural)]
pub enum Pick {
    /// One of them is not finite, so none is picked.
    Rejected,
    /// There are none, and the largest of none is negative infinity.
    NegInfinity,
    /// There are none, and the smallest of none is infinity.
    Infinity,
    /// The one at this index.
    At(usize),
}

/// Whether every number is finite.
pub open spec fn all_finite(keys: Seq<Option<i64>>) -> bool {
    forall|i: int| 0 <= i < keys.len() ==> (#[trigger] keys[i]) is Some
}

/// Whether `i` is the last index of a largest key.
pub open spec fn is_last_max(keys: Seq<Option<i64>>, i: int) -> bool {
    &&& 0 <= i < keys.len()
    &&& forall|j: int| 0 <= j < keys.len() ==> (#[trigger] keys[j])->0 <= keys[i]->0
    &&& forall|j: int| i < j < keys.len() ==> (#[trigger] keys[j])->0 < keys[i]->0
}

/// Whether `i` is the first index of a smallest key.
pub open spec fn is_first_min(keys: Seq<Option<i64>>, i: int) -> bool {
    &&& 0 <= i < keys.len()
    &&& forall|j: int| 0 <= j < keys.len() ==> keys[i]->0 <= (#[trigger] keys[j])->0
    &&& forall|j: int| 0 <= j < i ==> keys[i]->0 < (#[trigger] keys[j])->0
}

/// Whether `pick` is the largest of the numbers with these keys.
pub open spec fn picks_max(keys: Seq<Option<i64>>, pick: Pick) -> bool {
    match pick {
        Pick::Rejected => !all_finite(keys),
        Pick::NegInfinity => keys.len() == 0,
        Pick::Infinity => false,
        Pick::At(i) => all_finite(keys) && is_last_max(keys, i as int),
    }
}

/// Whether `pick` is the smallest of the numbers with these keys.
pub open spec fn picks_min(keys: Seq<Option<i64>>, pick: Pick) -> bool {
    match pick {
        Pick::Rejected => !all_finite(keys),
        Pick::NegInfinity => false,
        Pick::Infinity => keys.len() == 0,
        Pick::At(i) => all_finite(keys) && is_first_min(keys, i as int),
    }
}

/// Picks the largest of numbers, each given by a key that orders as the number does, or by none
/// where the number is infinite or not a number. Among equals the last is picked.
pub fn pick_max(keys: &Vec<Option<i64>>) -> (r: Pick)
    ensures
        picks_max(keys@, r),
{
    let mut best: Option<(usize, i64)> = None;
    let mut i: usize = 0;
    while i < keys.len()
        invariant
            i <= keys.len(),
            all_finite(keys@.take(i as int)),
            best is None <==> i == 0,
            best matches Some((at, key)) ==> keys[at as int] == Some(key) && is_last_max(
                keys@.take(i as int),
                at as int,
            ),
        decreases keys.len() - i,
    {
        let ghost seen = keys@.take(i as int);
        assert(keys@.take(i + 1) =~= seen.push(keys[i as int]));
        match keys[i] {
            Some(key) => {
                match best {
                    Some((_, best_key)) if key < best_key => {},
                    _ => {
                        best = Some((i, key));
                    },
                }
            },
            None => {
                return Pick::Rejected;
            },
        }
        i += 1;
    }
    assert(keys@.take(i as int) =~= keys@);
    match best {
        Some((at, _)) => Pick::At(at),
        None => Pick::NegInfinity,
    }
}

/// Picks the smallest of numbers, each given by a key that orders as the number does, or by none
/// where the number is infinite or not a number. Among equals the first is picked.
pub fn pick_min(keys: &Vec<Option<i64>>) -> (r: Pick)
    ensures
        picks_min(keys@, r),
{
    let mut best: Option<(usize, i64)> = None;
    let mut i: usize = 0;
    while i < keys.len()
        invariant
            i <= keys.len(),
            all_finite(keys@.take(i as int)),
            best is None <==> i == 0,
            best matches Some((at, key)) ==> keys[at as int] == Some(key) && is_first_min(
                keys@.take(i as int),
                at as int,
            ),
        decreases keys.len() - i,
    {
        let ghost seen = keys@.take(i as int);
        assert(keys@.take(i + 1) =~= seen.push(keys[i as int]));
        match keys[i] {
            Some(key) => {
                match best {
                    Some((_, best_key)) if best_key <= key => {},
                    _ => {
                        best = Some((i, key));
                    },
                }
            },
            None => {
                return Pick::Rejected;
            },
        }
        i += 1;
    }
    assert(keys@.take(i as int) =~= keys@);
    match best {
        Some((at, _)) => Pick::At(at),
        None => Pick::Infinity,
    }
}

}
