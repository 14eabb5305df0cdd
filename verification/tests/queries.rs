use minify_util::effects::{is_ident_used_by, Id};
use minify_util::ident::is_valid_identifier;
use minify_util::stmt::{
    always_terminates, is_directive, BlockStmt, ExprStmt, IfStmt, Stmt,
};
use minify_util::syntax::{Expr, ExprOrSuper, Ident, Leaf, LeafKind, MemberExpr};
use minify_util::target::{get_lhs_ident, get_lhs_ident_mut, BindingIdent, Pat, PatOrExpr};
use minify_util::undefined::{is_pure_undefined, is_pure_undefined_or_null};
use swc_common::{SyntaxContext, DUMMY_SP};
use swc_ecma_ast::{Invalid, Pat as AstPat};
use swc_common::input::SourceFileInput;
use swc_common::sync::Lrc;
use swc_common::{FileName, SourceMap};
use swc_ecma_ast::{EsVersion, Expr as AstExpr};
use swc_ecma_parser::lexer::Lexer;
use swc_ecma_parser::Parser;

fn parse(s: &str) -> AstExpr {
    let cm: Lrc<SourceMap> = Default::default();
    let fm = cm.new_source_file(FileName::Anon, format!("({})", s));
    let lexer = Lexer::new(
        Default::default(),
        EsVersion::latest(),
        SourceFileInput::from(&*fm),
        None,
    );
    let mut parser = Parser::new_from(lexer);
    let e = parser
        .parse_expr()
        .expect("failed to parse input as an expression");
    match *e {
        AstExpr::Paren(e) => *e.expr,
        _ => panic!("no parentheses"),
    }
}

fn expr(s: &str) -> Expr {
    Expr::from_ast(&parse(s))
}

fn id(sym: &str) -> Ident {
    Ident { span: DUMMY_SP, sym: sym.to_string(), optional: false }
}

#[test]
fn trees_survive_the_round_trip() {
    for text in [
        "-a", "+a", "!a", "~a", "typeof a", "void a", "delete a.b", "a == b", "a != b", "a === b",
        "a !== b", "a < b", "a <= b", "a > b", "a >= b", "a << b", "a >> b", "a >>> b", "a + b",
        "a - b", "a * b", "a / b", "a % b", "a | b", "a ^ b", "a & b", "a || b", "a && b",
        "a in b", "a instanceof b", "a ** b", "a ?? b", "a = b", "a.b += c", "[a] = b", "a.b.c",
        "a[b]", "a ? b : c", "f()", "f(a, ...b)", "a, b, c", "a", "a++", "new F(a)",
        "function () { return a; }", "'s'", "null", "1", "/x/g", "true", "(a)", "this", "x => x",
        "{}, []", "`a${b}`", "async function () { await a; }",
    ] {
        let ast = parse(text);
        assert_eq!(Expr::from_ast(&ast).to_ast(), ast, "{}", text);
    }
}

#[test]
fn super_survives_the_round_trip() {
    let e = Expr::Member(MemberExpr {
        span: DUMMY_SP,
        obj: ExprOrSuper::Super(DUMMY_SP),
        prop: Box::new(Expr::Ident(id("a"))),
        computed: false,
    });
    let ast = e.to_ast();
    match Expr::from_ast(&ast) {
        Expr::Member(e) => assert!(matches!(e.obj, ExprOrSuper::Super(_)) && !e.computed),
        _ => panic!("not a member"),
    }
}

#[test]
fn leaves_know_their_kind() {
    let kind_is = |text: &str, test: fn(&LeafKind) -> bool| {
        let leaf = Leaf::new(parse(text)).expect("no leaf");
        assert!(test(leaf.kind()), "{}", text);
        assert_eq!(*leaf.node(), parse(text));
    };
    kind_is("a++", |k| matches!(k, LeafKind::Update));
    kind_is("new F()", |k| matches!(k, LeafKind::New));
    kind_is("function () {}", |k| matches!(k, LeafKind::Fn { is_pure_callee: true }));
    kind_is("function () { f(); }", |k| matches!(k, LeafKind::Fn { is_pure_callee: false }));
    kind_is("'text'", |k| matches!(k, LeafKind::Str(s) if s == "text"));
    kind_is("null", |k| matches!(k, LeafKind::Null));
    kind_is("12", |k| matches!(k, LeafKind::Lit));
    kind_is("() => a", |k| matches!(k, LeafKind::Other { has_effects: false }));
    kind_is("`a`", |k| matches!(k, LeafKind::Other { has_effects: true }));
}

#[test]
fn other_expressions_are_no_leaves() {
    for text in ["!a", "a + b", "a = b", "a.b", "a ? b : c", "f()", "a, b", "a"] {
        assert_eq!(Leaf::new(parse(text)).err(), Some(parse(text)));
    }
}

#[test]
fn side_effects() {
    for text in [
        "a", "1", "'s'", "null", "/x/", "this", "function () { f(); }", "x => f()", "Math.PI",
        "Math[a]", "-a", "a + 1", "a ? b : c", "Math.cos(a)", "[a, b]", "Date", "Date(a, 1)", "a, b, 1", "function () {}(a)",
    ] {
        assert!(!expr(text).may_have_side_effects(), "{}", text);
    }
    for text in [
        "f()", "a.b", "a++", "a = b", "new F()", "-f()", "a + f()", "a ? f() : c", "Math.cos(f())",
        "Maths.PI", "void a.b", "void f()", "f() ? b : c", "a ? b : f()", "a, f(), b", "Date(f())",
        "function () { f(); }()", "function () {}(f())", "`a`", "-`a`",
    ] {
        assert!(expr(text).may_have_side_effects(), "{}", text);
    }
}

#[test]
fn used_identifiers() {
    let used = |sym: &str, text: &str| {
        let id = Id { sym: sym.to_string(), ctxt: SyntaxContext::empty() };
        is_ident_used_by(id, &expr(text))
    };
    assert!(used("a", "a"));
    assert!(used("a", "f(1, b + a)"));
    assert!(used("a", "a.b"));
    assert!(used("b", "a[b]"));
    assert!(used("a", "function () { return a; }"));
    assert!(!used("b", "a.b"));
    assert!(!used("a", "f(b)"));
    assert!(!used("a", "'a'"));
}

#[test]
fn valid_identifiers() {
    for text in ["a", "A", "abc", "a1", "a_b", "undefined", "let", "async"] {
        assert!(is_valid_identifier(text, true), "{}", text);
        assert!(is_valid_identifier(text, false), "{}", text);
    }
    assert!(is_valid_identifier("\u{e9}t\u{e9}", false));
    assert!(is_valid_identifier("a\u{4e00}", false));
}

#[test]
fn invalid_identifiers() {
    for text in ["", "1a", "a b", "a-b", "$", "_a", "a$", "if", "this", "package", "null"] {
        assert!(!is_valid_identifier(text, true), "{}", text);
        assert!(!is_valid_identifier(text, false), "{}", text);
    }
    assert!(!is_valid_identifier("\u{1d4b6}", false));
    assert!(!is_valid_identifier("a\u{1d4b6}", false));
    assert!(!is_valid_identifier("a\u{2028}", false));
}

#[test]
fn ascii_only_identifiers() {
    assert!(!is_valid_identifier("\u{e9}t\u{e9}", true));
    assert!(!is_valid_identifier("a\u{4e00}", true));
}

#[test]
fn all_reserved_words() {
    for text in [
        "break", "case", "catch", "class", "const", "continue", "debugger", "default", "delete",
        "do", "else", "enum", "export", "extends", "false", "finally", "for", "function", "if",
        "import", "in", "instanceof", "new", "null", "package", "return", "super", "switch",
        "this", "throw", "true", "try", "typeof", "var", "void", "while", "with",
    ] {
        assert!(!is_valid_identifier(text, false), "{}", text);
        assert!(is_valid_identifier(&format!("{}s", text), false), "{}", text);
    }
}

#[test]
fn undefined_without_effects() {
    for text in ["undefined", "void 0", "void Math.cos(a)", "void Date()", "void a", "void function () { f(); }"] {
        assert!(is_pure_undefined(&expr(text)), "{}", text);
        assert!(is_pure_undefined_or_null(&expr(text)), "{}", text);
    }
    for text in ["void f()", "void f(a)", "void new F()", "void a.b", "a", "'undefined'", "undefined.a", "-undefined", "0"] {
        assert!(!is_pure_undefined(&expr(text)), "{}", text);
        assert!(!is_pure_undefined_or_null(&expr(text)), "{}", text);
    }
}

#[test]
fn null_is_not_undefined() {
    assert!(!is_pure_undefined(&expr("null")));
    assert!(is_pure_undefined_or_null(&expr("null")));
    assert!(!is_pure_undefined_or_null(&expr("'null'")));
}

#[test]
fn identifiers_of_targets() {
    let of_expr = PatOrExpr::Expr(Box::new(Expr::Ident(id("a"))));
    assert_eq!(get_lhs_ident(&of_expr).unwrap().sym, "a");
    let binding = BindingIdent { id: id("b"), type_ann: None };
    let of_pat = PatOrExpr::Pat(Box::new(Pat::Ident(binding)));
    assert_eq!(get_lhs_ident(&of_pat).unwrap().sym, "b");
    let of_pat_expr = PatOrExpr::Pat(Box::new(Pat::Expr(Box::new(Expr::Ident(id("c"))))));
    assert_eq!(get_lhs_ident(&of_pat_expr).unwrap().sym, "c");
}

#[test]
fn targets_without_identifier() {
    let mut member = PatOrExpr::Expr(Box::new(expr("a.b")));
    assert!(get_lhs_ident(&member).is_none());
    assert!(get_lhs_ident_mut(&mut member).is_none());
    let mut pat_expr = PatOrExpr::Pat(Box::new(Pat::Expr(Box::new(expr("a.b")))));
    assert!(get_lhs_ident(&pat_expr).is_none());
    assert!(get_lhs_ident_mut(&mut pat_expr).is_none());
    let invalid = AstPat::Invalid(Invalid { span: DUMMY_SP });
    let mut other = PatOrExpr::Pat(Box::new(Pat::Other(invalid)));
    assert!(get_lhs_ident(&other).is_none());
    assert!(get_lhs_ident_mut(&mut other).is_none());
}

#[test]
fn identifiers_of_targets_can_be_replaced() {
    let binding = BindingIdent { id: id("b"), type_ann: None };
    for mut target in [
        PatOrExpr::Expr(Box::new(Expr::Ident(id("a")))),
        PatOrExpr::Pat(Box::new(Pat::Ident(binding))),
        PatOrExpr::Pat(Box::new(Pat::Expr(Box::new(Expr::Ident(id("c")))))),
    ] {
        *get_lhs_ident_mut(&mut target).unwrap() = id("new");
        assert_eq!(get_lhs_ident(&target).unwrap().sym, "new");
    }
}

#[test]
fn directives() {
    let directive = |text: &str| is_directive(&Stmt::Expr(ExprStmt { expr: expr(text) }));
    assert!(directive("'use strict'"));
    assert!(directive("'use '"));
    assert!(!directive("'use'"));
    assert!(!directive("'us'"));
    assert!(!directive("' use strict'"));
    assert!(!directive("'Use strict'"));
    assert!(!directive("use"));
    assert!(!is_directive(&Stmt::Return));
    assert!(!is_directive(&Stmt::Other));
}

fn block(stmts: Vec<Stmt>) -> Stmt {
    Stmt::Block(BlockStmt { stmts })
}

fn if_else(cons: Stmt, alt: Option<Stmt>) -> Stmt {
    Stmt::If(IfStmt { cons: Box::new(cons), alt: alt.map(Box::new) })
}

#[test]
fn jumps_terminate() {
    for stmt in [Stmt::Return, Stmt::Throw, Stmt::Break, Stmt::Continue] {
        assert!(always_terminates(&stmt));
    }
    assert!(!always_terminates(&Stmt::Other));
    assert!(!always_terminates(&Stmt::Expr(ExprStmt { expr: expr("f()") })));
}

#[test]
fn branches_terminate_together() {
    assert!(always_terminates(&if_else(Stmt::Return, Some(Stmt::Throw))));
    assert!(!always_terminates(&if_else(Stmt::Return, None)));
    assert!(!always_terminates(&if_else(Stmt::Return, Some(Stmt::Other))));
    assert!(!always_terminates(&if_else(Stmt::Other, Some(Stmt::Return))));
}

#[test]
fn blocks_terminate_with_any_statement() {
    assert!(always_terminates(&block(vec![Stmt::Other, Stmt::Return, Stmt::Other])));
    assert!(always_terminates(&block(vec![if_else(Stmt::Break, Some(block(vec![Stmt::Throw])))])));
    assert!(!always_terminates(&block(vec![])));
    assert!(!always_terminates(&block(vec![Stmt::Other, if_else(Stmt::Return, None)])));
}
