use minify_util::number::{
    eval_as_number, eval_call_as_number, pick_max, pick_min, NumberPlan, Pick,
};
use minify_util::syntax::{CallExpr, Expr, ExprOrSuper};
use swc_common::EqIgnoreSpan;
use swc_ecma_utils::{ExprExt, Value};
use swc_common::input::SourceFileInput;
use swc_common::sync::Lrc;
use swc_common::{FileName, SourceMap};
use swc_ecma_ast::{EsVersion, Expr as AstExpr};
use swc_ecma_parser::lexer::Lexer;
use swc_ecma_parser::Parser;

fn parse(s: &str) -> AstExpr {
    let cm: Lrc<SourceMap> = Default::default();
    let fm = cm.new_source_file(FileName::Anon, format!("({})", s));
    let lexer = Lexer::new(
        Default::default(),
        EsVersion::latest(),
        SourceFileInput::from(&*fm),
        None,
    );
    let mut parser = Parser::new_from(lexer);
    let e = parser
        .parse_expr()
        .expect("failed to parse input as an expression");
    match *e {
        AstExpr::Paren(e) => *e.expr,
        _ => panic!("no parentheses"),
    }
}

fn expr(s: &str) -> Expr {
    Expr::from_ast(&parse(s))
}

fn call(s: &str) -> CallExpr {
    match expr(s) {
        Expr::Call(e) => e,
        _ => panic!("not a call"),
    }
}

fn is_cast(plan: &NumberPlan, text: &str) -> bool {
    match plan {
        NumberPlan::Cast(e) => e.to_ast().eq_ignore_span(&parse(text)),
        _ => false,
    }
}

#[test]
fn constants_of_math() {
    assert!(matches!(eval_as_number(&expr("Math.PI")), Some(NumberPlan::Pi)));
    assert!(matches!(eval_as_number(&expr("Math.E")), Some(NumberPlan::E)));
    assert!(matches!(eval_as_number(&expr("Math.LN10")), Some(NumberPlan::Ln10)));
    assert!(eval_as_number(&expr("Math.LN2")).is_none());
    assert!(eval_as_number(&expr("Maths.PI")).is_none());
    assert!(eval_as_number(&expr("f().PI")).is_none());
}

#[test]
fn computed_members_are_cast() {
    assert!(is_cast(&eval_as_number(&expr("Math[PI]")).unwrap(), "Math[PI]"));
}

#[test]
fn anything_else_is_cast() {
    for text in ["1", "'2'", "a", "1 + 2", "-1", "f", "a ? 1 : 2"] {
        assert!(is_cast(&eval_as_number(&expr(text)).unwrap(), text), "{}", text);
    }
}

#[test]
fn differences() {
    let e = expr("1 - Math.PI");
    match eval_as_number(&e) {
        Some(NumberPlan::Sub(l, r)) => {
            assert!(is_cast(&l, "1"));
            assert!(matches!(*r, NumberPlan::Pi));
        }
        _ => panic!("not a difference"),
    }
    assert!(eval_as_number(&expr("1 - Math.LN2")).is_none());
    assert!(eval_as_number(&expr("f() - 1")).is_none());
}

#[test]
fn cos_and_sin_read_the_first_argument() {
    let e = expr("Math.cos(1, 2)");
    match eval_as_number(&e) {
        Some(NumberPlan::Cos(v)) => assert!(is_cast(&v, "1")),
        _ => panic!("not a cosine"),
    }
    let e = expr("Math.sin(Math.PI)");
    match eval_as_number(&e) {
        Some(NumberPlan::Sin(v)) => assert!(matches!(*v, NumberPlan::Pi)),
        _ => panic!("not a sine"),
    }
    assert!(eval_as_number(&expr("Math.cos()")).is_none());
    assert!(eval_as_number(&expr("Math.sin()")).is_none());
    assert!(eval_as_number(&expr("Math.cos(Math.LN2)")).is_none());
    assert!(eval_as_number(&expr("Math.cos(1, Math.LN2)")).is_some());
}

#[test]
fn max_and_min_take_any_number() {
    let e = expr("Math.max(1, 2, Math.min())");
    match eval_as_number(&e) {
        Some(NumberPlan::Max(v)) => {
            assert_eq!(v.len(), 3);
            assert!(is_cast(&v[0], "1"));
            assert!(is_cast(&v[1], "2"));
            assert!(matches!(&v[2], NumberPlan::Min(w) if w.is_empty()));
        }
        _ => panic!("not a maximum"),
    }
    assert!(eval_as_number(&expr("Math.min(1, Math.LN2)")).is_none());
}

#[test]
fn pow_takes_two() {
    let e = expr("Math.pow(2, 3)");
    match eval_as_number(&e) {
        Some(NumberPlan::Pow(a, b)) => assert!(is_cast(&a, "2") && is_cast(&b, "3")),
        _ => panic!("not a power"),
    }
    assert!(eval_as_number(&expr("Math.pow(2)")).is_none());
    assert!(eval_as_number(&expr("Math.pow(2, 3, 4)")).is_none());
    assert!(eval_as_number(&expr("Math.pow(2, Math.LN2)")).is_none());
}

#[test]
fn place_in_the_source_does_not_matter() {
    let here = expr("Math.max(1, 'a' - Math.PI)");
    let there = expr("   Math . max( 1,\n 'a'  -  Math.PI )");
    assert!(here.to_ast() != there.to_ast());
    for e in [&here, &there] {
        match eval_as_number(e) {
            Some(NumberPlan::Max(v)) => {
                assert_eq!(v.len(), 2);
                assert!(is_cast(&v[0], "1"));
                match &v[1] {
                    NumberPlan::Sub(l, r) => {
                        assert!(is_cast(l, "'a'"));
                        assert!(matches!(**r, NumberPlan::Pi));
                    }
                    _ => panic!("not a difference"),
                }
            }
            _ => panic!("not a maximum"),
        }
    }
    assert!(eval_as_number(&expr("Math.max( f() )")).is_none());
    assert!(eval_as_number(&expr("  Math.max(f())")).is_none());
}

#[test]
fn calls_that_are_not_computed() {
    for text in [
        "f(1)", "Math.exp(1)", "Math[max](1)", "Math.max(...a)", "Math.max(f())", "Math.cos(1, f())",
        "Math.cos(i++)", "Math.cos(a.b)", "Math.cos(a ? f() : 1)", "Math.max((1, f()))", "a.Math.cos(1)", "cos(1)",
    ] {
        assert!(eval_as_number(&expr(text)).is_none(), "{}", text);
    }
}

#[test]
fn calls_of_super_are_cast() {
    let e = call("Math.cos(1)");
    let span = e.span;
    let e = Expr::Call(CallExpr { callee: ExprOrSuper::Super(span), ..e });
    assert!(matches!(eval_as_number(&e), Some(NumberPlan::Cast(_))));
}

#[test]
fn calls_are_computed_only_on_plain_arguments() {
    let e = call("Math.cos(1)");
    let callee = match &e.callee {
        ExprOrSuper::Expr(callee) => &**callee,
        ExprOrSuper::Super(_) => panic!("no callee"),
    };
    assert!(matches!(
        eval_call_as_number(callee, &e.args, true),
        Some(NumberPlan::Cos(_))
    ));
    assert!(eval_call_as_number(callee, &e.args, false).is_none());
    assert!(eval_call_as_number(&expr("Math.exp"), &e.args, true).is_none());
}

#[test]
fn last_of_the_largest_is_picked() {
    assert_eq!(pick_max(&vec![Some(1), Some(3), Some(3), Some(2)]), Pick::At(2));
    assert_eq!(pick_max(&vec![Some(-5)]), Pick::At(0));
    assert_eq!(pick_max(&vec![]), Pick::NegInfinity);
    assert_eq!(pick_max(&vec![Some(1), None]), Pick::Rejected);
}

#[test]
fn first_of_the_smallest_is_picked() {
    assert_eq!(pick_min(&vec![Some(4), Some(1), Some(1), Some(2)]), Pick::At(1));
    assert_eq!(pick_min(&vec![Some(-5), Some(-6)]), Pick::At(1));
    assert_eq!(pick_min(&vec![]), Pick::Infinity);
    assert_eq!(pick_min(&vec![None, Some(1)]), Pick::Rejected);
}

fn picked(plans: &[NumberPlan], pick: fn(&Vec<Option<i64>>) -> Pick) -> Option<f64> {
    let numbers: Vec<f64> = plans.iter().map(run).collect::<Option<_>>()?;
    let keys = numbers
        .iter()
        .map(|v| if v.is_finite() { Some((*v * 1000.0) as i64) } else { None })
        .collect();
    match pick(&keys) {
        Pick::Rejected => None,
        Pick::NegInfinity => Some(f64::NEG_INFINITY),
        Pick::Infinity => Some(f64::INFINITY),
        Pick::At(i) => Some(numbers[i]),
    }
}

fn run(plan: &NumberPlan) -> Option<f64> {
    match plan {
        NumberPlan::Sub(l, r) => Some(run(l)? - run(r)?),
        NumberPlan::Cos(v) => Some(run(v)?.cos()),
        NumberPlan::Sin(v) => Some(run(v)?.sin()),
        NumberPlan::Max(v) => picked(v, pick_max),
        NumberPlan::Min(v) => picked(v, pick_min),
        NumberPlan::Pow(l, r) => Some(run(l)?.powf(run(r)?)),
        NumberPlan::Pi => Some(std::f64::consts::PI),
        NumberPlan::E => Some(std::f64::consts::E),
        NumberPlan::Ln10 => Some(std::f64::consts::LN_10),
        NumberPlan::Cast(e) => match e.to_ast().as_number() {
            Value::Known(v) => Some(v),
            Value::Unknown => None,
        },
    }
}

fn number(s: &str) -> Option<f64> {
    run(&eval_as_number(&expr(s))?)
}

#[test]
fn values_of_differences_and_constants() {
    assert_eq!(number("5 - 3"), Some(2.0));
    assert_eq!(number("'7' - 1"), Some(6.0));
    assert_eq!(number("a - 1"), None);
    assert_eq!(number("Math.PI"), Some(std::f64::consts::PI));
    assert_eq!(number("Math.E"), Some(std::f64::consts::E));
    assert_eq!(number("Math.LN10"), Some(std::f64::consts::LN_10));
}

#[test]
fn values_of_calls() {
    assert_eq!(number("Math.cos(0, 1)"), Some(1.0));
    assert_eq!(number("Math.sin(0)"), Some(0.0));
    assert_eq!(number("Math.pow(2, 5 - 2)"), Some(8.0));
    assert_eq!(number("Math.pow(2, a)"), None);
    assert_eq!(number("Math.max(1, 3, 2)"), Some(3.0));
    assert_eq!(number("Math.min(1, 3, 0 - 2)"), Some(-2.0));
    assert_eq!(number("Math.max(1, a)"), None);
}

#[test]
fn values_of_no_numbers_and_of_infinite_ones() {
    assert_eq!(number("Math.max()"), Some(f64::NEG_INFINITY));
    assert_eq!(number("Math.min()"), Some(f64::INFINITY));
    assert_eq!(number("Math.max(1, Math.min())"), None);
    assert_eq!(number("Math.min(1, NaN)"), None);
    assert_eq!(number("0 - Math.max()"), Some(f64::INFINITY));
}
