use minify_util::negate::{is_ok_to_negate_for_cond, is_ok_to_negate_rhs, negate};
use minify_util::syntax::{Expr, SeqExpr};
use swc_common::{EqIgnoreSpan, DUMMY_SP};
use swc_common::input::SourceFileInput;
use swc_common::sync::Lrc;
use swc_common::{FileName, SourceMap};
use swc_ecma_ast::{EsVersion, Expr as AstExpr};
use swc_ecma_parser::lexer::Lexer;
use swc_ecma_parser::Parser;

fn parse(s: &str) -> AstExpr {
    let cm: Lrc<SourceMap> = Default::default();
    let fm = cm.new_source_file(FileName::Anon, format!("({})", s));
    let lexer = Lexer::new(
        Default::default(),
        EsVersion::latest(),
        SourceFileInput::from(&*fm),
        None,
    );
    let mut parser = Parser::new_from(lexer);
    let e = parser
        .parse_expr()
        .expect("failed to parse input as an expression");
    match *e {
        AstExpr::Paren(e) => *e.expr,
        _ => panic!("no parentheses"),
    }
}

fn expr(s: &str) -> Expr {
    Expr::from_ast(&parse(s))
}

fn negated(mut e: Expr, in_bool_ctx: bool) -> AstExpr {
    negate(&mut e, in_bool_ctx);
    e.to_ast()
}

fn assert_negated(from: &str, in_bool_ctx: bool, to: &str) {
    let actual = negated(expr(from), in_bool_ctx);
    assert!(
        actual.eq_ignore_span(&parse(to)),
        "negation of {} is not {}, but {:?}",
        from,
        to,
        actual,
    );
}

#[test]
fn equalities_become_their_opposites() {
    for in_bool_ctx in [false, true] {
        assert_negated("a == b", in_bool_ctx, "a != b");
        assert_negated("a != b", in_bool_ctx, "a == b");
        assert_negated("a === b", in_bool_ctx, "a !== b");
        assert_negated("a !== b", in_bool_ctx, "a === b");
    }
}

#[test]
fn equality_negated_twice_is_itself() {
    for text in ["a == f()", "a != f()", "a === f()", "a !== f()"] {
        let before = parse(text);
        let mut e = Expr::from_ast(&before);
        negate(&mut e, false);
        assert!(e.to_ast() != before);
        negate(&mut e, true);
        assert_eq!(e.to_ast(), before);
    }
}

#[test]
fn negation_twice_is_itself_in_bool_context() {
    for text in [
        "a", "f()", "a && b", "a || b == c", "a && f()", "a ? b : c", "a ? b++ : c", "a, b", "-a",
        "(a, b) || c", "a in b",
    ] {
        for first in [false, true] {
            let before = parse(text);
            let mut e = Expr::from_ast(&before);
            negate(&mut e, first);
            assert!(e.to_ast() != before);
            negate(&mut e, true);
            assert_eq!(e.to_ast(), before, "{}", text);
        }
    }
}

#[test]
fn negation_twice_can_differ_where_a_bang_is_taken_away() {
    let mut e = expr("a && !f()");
    negate(&mut e, true);
    assert!(e.to_ast().eq_ignore_span(&parse("!a || f()")));
    negate(&mut e, true);
    match e.to_ast() {
        AstExpr::Unary(e) => assert!(e.arg.eq_ignore_span(&Box::new(parse("!a || f()")))),
        _ => panic!("not a negation"),
    }
}

#[test]
fn place_in_the_source_does_not_matter_to_negation() {
    for (here, there) in [("a&&b.c", "  a  &&  b . c"), ("a?f():b", " a ? f( ) : b")] {
        assert!(parse(here) != parse(there));
        assert!(negated(expr(here), true).eq_ignore_span(&negated(expr(there), true)));
    }
}

#[test]
fn other_comparisons_get_a_bang() {
    for (op, text) in [("<", "a < b"), (">=", "a >= b"), ("in", "a in b"), ("+", "a + b")] {
        let actual = negated(expr(text), true);
        match actual {
            AstExpr::Unary(e) => assert!(e.op.as_str() == "!" && *e.arg == parse(text), "{}", op),
            _ => panic!("no negation of {}", text),
        }
    }
}

#[test]
fn logical_operators_are_pushed_inwards() {
    assert_negated("a && b", false, "!a || !b");
    assert_negated("a || b", false, "!a && !b");
    assert_negated("!a && !b", true, "a || b");
    assert_negated("!a || !b", true, "a && b");
    assert_negated("f() && a.b", false, "!f() || !a.b");
    assert_negated("a == b && c === d", false, "a != b || c !== d");
}

#[test]
fn logical_operators_stay_before_a_call() {
    let actual = negated(expr("a && f()"), false);
    match actual {
        AstExpr::Unary(e) => {
            assert_eq!(e.op.as_str(), "!");
            assert_eq!(*e.arg, parse("a && f()"));
            assert_eq!(e.span, DUMMY_SP);
        }
        _ => panic!("not a negation"),
    }
}

#[test]
fn branches_of_conditionals() {
    assert_negated("a ? b : c", false, "a ? !b : !c");
    assert_negated("a ? !b : c", true, "a ? b : !c");
    let actual = negated(expr("a ? b++ : c"), true);
    match actual {
        AstExpr::Unary(e) => assert_eq!(*e.arg, parse("a ? b++ : c")),
        _ => panic!("not a negation"),
    }
}

#[test]
fn last_of_a_sequence() {
    assert_negated("a, b, c", false, "a, b, !c");
    assert_negated("f(), a == b", true, "f(), a != b");
}

#[test]
fn empty_sequence_gets_a_bang() {
    let e = Expr::Sequence(SeqExpr { span: DUMMY_SP, exprs: vec![] });
    match negated(e, true) {
        AstExpr::Unary(e) => match *e.arg {
            AstExpr::Seq(s) => assert!(s.exprs.is_empty()),
            _ => panic!("not a sequence"),
        },
        _ => panic!("not a negation"),
    }
}

#[test]
fn bangs_that_are_taken_away() {
    assert_negated("!!a", false, "!a");
    assert_negated("!!a", true, "!a");
    assert_negated("!a", true, "a");
    assert_negated("!a", false, "!!a");
    assert_negated("-a", true, "!-a");
}

#[test]
fn boolean_operands_lose_their_bang() {
    for text in ["a in b", "a instanceof b"] {
        let inner = parse(text);
        let mut e = Expr::from_ast(&inner);
        negate(&mut e, false);
        assert!(e.to_ast() != inner);
        negate(&mut e, false);
        assert_eq!(e.to_ast(), inner);
    }
}

#[test]
fn plain_expressions_get_a_bang() {
    assert_negated("a", true, "!a");
    assert_negated("f(1)", false, "!f(1)");
    assert_negated("a.b", false, "!a.b");
    assert_negated("i++", false, "!i++");
}

#[test]
fn branches_that_may_be_negated() {
    assert!(is_ok_to_negate_for_cond(&expr("a")));
    assert!(is_ok_to_negate_for_cond(&expr("f()")));
    assert!(!is_ok_to_negate_for_cond(&expr("a++")));
    assert!(!is_ok_to_negate_for_cond(&expr("--a")));
}

#[test]
fn right_operands_that_may_be_negated() {
    for text in [
        "a", "1", "'s'", "null", "this", "a.b", "a[f()]", "f() == g()", "a !== f()", "!f()",
        "delete a[f()]", "typeof a", "a = b", "f(), a", "f() ? a : b", "a + b", "a && b",
        "function () { f(); }",
    ] {
        assert!(is_ok_to_negate_rhs(&expr(text)), "{}", text);
    }
    let empty = Expr::Sequence(SeqExpr { span: DUMMY_SP, exprs: vec![] });
    assert!(is_ok_to_negate_rhs(&empty));
}

#[test]
fn right_operands_that_may_not_be_negated() {
    for text in [
        "f()", "new F()", "a++", "void (a, f())", "-(a ? b : f())", "+f(a)", "a = f()", "a, f()", "a ? f() : b", "a ? b : f()", "f() + a",
        "a && f()", "f() || a", "typeof f()", "void a.b", "`${a}`",
    ] {
        assert!(!is_ok_to_negate_rhs(&expr(text)), "{}", text);
    }
}
