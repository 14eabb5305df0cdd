use minify_util::cost::{has_bounded_cost, negate_cost};
use minify_util::syntax::{Expr, SeqExpr};
use swc_common::DUMMY_SP;
use swc_common::input::SourceFileInput;
use swc_common::sync::Lrc;
use swc_common::{FileName, SourceMap};
use swc_ecma_ast::{EsVersion, Expr as AstExpr};
use swc_ecma_parser::lexer::Lexer;
use swc_ecma_parser::Parser;

fn parse(s: &str) -> AstExpr {
    let cm: Lrc<SourceMap> = Default::default();
    let fm = cm.new_source_file(FileName::Anon, s.to_string());
    let lexer = Lexer::new(
        Default::default(),
        EsVersion::latest(),
        SourceFileInput::from(&*fm),
        None,
    );
    let mut parser = Parser::new_from(lexer);
    *parser
        .parse_expr()
        .expect("failed to parse input as an expression")
}

fn expr(s: &str) -> Expr {
    Expr::from_ast(&parse(s))
}

fn assert_negate_cost(s: &str, in_bool_ctx: bool, is_ret_val_ignored: bool, expected: isize) {
    let e = expr(s);
    assert!(has_bounded_cost(&e));
    let actual = negate_cost(&e, in_bool_ctx, is_ret_val_ignored).unwrap();
    assert_eq!(
        actual, expected,
        "Expected negation cost of {} to be {}, but got {}",
        s, expected, actual,
    );
}

#[test]
fn logical_1() {
    assert_negate_cost(
        "this[key] && !this.hasOwnProperty(key) || (this[key] = value)",
        false,
        true,
        2,
    );
}

#[test]
fn plain_expressions() {
    for text in ["a", "1", "a.b", "f()", "a + b", "-a", "new F()", "function () {}"] {
        assert_negate_cost(text, false, false, 1);
        assert_negate_cost(text, true, false, 1);
        assert_negate_cost(text, false, true, 0);
        assert_negate_cost(text, true, true, 0);
    }
}

#[test]
fn equalities_cost_nothing() {
    for text in ["a == b", "a != b", "a === b", "a !== b"] {
        assert_negate_cost(text, false, false, 0);
        assert_negate_cost(text, true, true, 0);
    }
}

#[test]
fn bang_costs_less_in_bool_context() {
    assert_negate_cost("!a", true, false, -1);
    assert_negate_cost("!a", true, true, -1);
    assert_negate_cost("!a", false, false, 1);
    assert_negate_cost("!(a = b)", true, false, -1);
    assert_negate_cost("!a++", true, false, -3);
    assert_negate_cost("!a++", true, true, -3);
}

#[test]
fn double_bang_is_efficient_everywhere() {
    for in_bool_ctx in [false, true] {
        for is_ret_val_ignored in [false, true] {
            assert_negate_cost("!!a", in_bool_ctx, is_ret_val_ignored, -1);
            assert_negate_cost("!!!a", in_bool_ctx, is_ret_val_ignored, -1);
        }
    }
}

#[test]
fn called_function_expression_costs_nothing() {
    assert_negate_cost("!function () {}()", true, false, 0);
    assert_negate_cost("!function () {}()", false, true, 0);
    assert_negate_cost("!f()", true, false, -1);
    assert_negate_cost("!(function () {})()", true, false, -1);
}

#[test]
fn logical_operators_add_up() {
    assert_negate_cost("a && b", false, false, 2);
    assert_negate_cost("a || b", false, true, 1);
    assert_negate_cost("!a && !b", true, false, -2);
    assert_negate_cost("!a || b", true, false, 0);
    assert_negate_cost("a && f()", false, false, 4);
    assert_negate_cost("a && f()", false, true, 1);
    assert_negate_cost("!a && b++", true, false, 2);
}

#[test]
fn conditionals_and_updates() {
    assert_negate_cost("a ? b : c", false, false, 2);
    assert_negate_cost("a ? !b : !c", true, false, -2);
    assert_negate_cost("a ? b++ : c", false, true, 3);
    assert_negate_cost("a ? b : --c", false, false, 3);
    assert_negate_cost("a++", false, true, 3);
    assert_negate_cost("a instanceof b", false, false, 3);
}

#[test]
fn membership_tests() {
    let e = match parse("(a in b)") {
        AstExpr::Paren(e) => Expr::from_ast(&e.expr),
        _ => panic!("no parentheses"),
    };
    assert_eq!(negate_cost(&e, true, true), Some(3));
    assert_eq!(negate_cost(&e, false, false), Some(3));
}

#[test]
fn assignments_and_sequences() {
    assert_negate_cost("a = b", false, false, 3);
    assert_negate_cost("a = b", false, true, 0);
    assert_negate_cost("a, !b", true, false, -1);
    assert_negate_cost("a, b = c", false, false, 3);
    let empty = Expr::Sequence(SeqExpr { span: DUMMY_SP, exprs: vec![] });
    assert_eq!(negate_cost(&empty, true, false), Some(1));
    assert_eq!(negate_cost(&empty, true, true), Some(0));
}
