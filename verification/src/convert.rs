//! Between the syntax tree of this crate and the outside one.

use crate::outside::{
    ast_as_call, ast_as_ident, ast_as_member, ast_as_operator, ast_as_seq, ast_assign, ast_bin,
    ast_call, ast_clone, ast_cond, ast_ident, ast_member, ast_seq, ast_unary, contents,
    contents_of_all, contents_of_args, contents_of_callee, AstCallee, AstOperator,
};
use crate::syntax::{
    AssignExpr, BinExpr, BinaryOp, CallExpr, CondExpr, Expr, ExprOrSpread, ExprOrSpreadView,
    ExprOrSuper, Ident, Leaf, MemberExpr, SeqExpr, UnaryExpr, UnaryOp,
};
use crate::text::same;
use swc_common::Span;
use swc_ecma_ast::Expr as AstExpr;
use vstd::pervasive::unreached;
use vstd::prelude::*;

verus! {

impl ExprOrSuper {
    /// The same with the expression in the outside syntax tree.
    fn to_ast(&self) -> (r: AstCallee)
        ensures
            r.view() == self@,
        decreases self,
    {
        match self {
            ExprOrSuper::Super(span) => AstCallee::Super(*span),
            ExprOrSuper::Expr(e) => AstCallee::Expr(e.to_ast()),
        }
    }
}

impl Expr {
    /// The same expression in the outside syntax tree.
    pub fn to_ast(&self) -> (r: AstExpr)
        ensures
            contents(r) == self@,
        decreases self,
    {
        match self {
            Expr::Unary(e) => ast_unary(e.span, e.op, e.op.as_str(), e.arg.to_ast()),
            Expr::Bin(e) => ast_bin(
                e.span,
                e.op,
                e.op.as_str(),
                e.left.to_ast(),
                e.right.to_ast(),
            ),
            Expr::Assign(e) => ast_assign(e.span, e.op, &e.left, e.right.to_ast()),
            Expr::Member(e) => ast_member(e.span, e.obj.to_ast(), e.prop.to_ast(), e.computed),
            Expr::Cond(e) => ast_cond(e.span, e.test.to_ast(), e.cons.to_ast(), e.alt.to_ast()),
            Expr::Call(e) => {
                let mut args: Vec<(Option<Span>, AstExpr)> = Vec::new();
                let mut i: usize = 0;
                while i < e.args.len()
                    invariant
                        *self == Expr::Call(*e),
                        i <= e.args.len(),
                        args.len() == i,
                        forall|j: int|
                            0 <= j < i ==> (#[trigger] args[j]).0 == e.args[j].spread && contents(
                                args[j].1,
                            ) == e.args[j].expr@,
                    decreases e.args.len() - i,
                {
                    assert(decreases_to!(*self => self->Call_0));
                    args.push((e.args[i].spread, e.args[i].expr.to_ast()));
                    i += 1;
                }
                proof {
                    assert(contents_of_args(args@) =~= self@->args);
                }
                ast_call(e.span, e.callee.to_ast(), args, &e.type_args)
            },
            Expr::Sequence(e) => {
                let mut exprs: Vec<AstExpr> = Vec::new();
                let mut i: usize = 0;
                while i < e.exprs.len()
                    invariant
                        *self == Expr::Sequence(*e),
                        i <= e.exprs.len(),
                        exprs.len() == i,
                        forall|j: int| 0 <= j < i ==> contents(#[trigger] exprs[j]) == e.exprs[j]@,
                    decreases e.exprs.len() - i,
                {
                    assert(decreases_to!(*self => self->Sequence_0));
                    exprs.push(e.exprs[i].to_ast());
                    i += 1;
                }
                proof {
                    assert(contents_of_all(exprs@) =~= self@->exprs);
                }
                ast_seq(e.span, exprs)
            },
            Expr::Ident(e) => ast_ident(e.span, e.sym.as_str(), e.optional),
            Expr::Leaf(e) => ast_clone(e.node()),
        }
    }
}

impl UnaryOp {
    /// No two operators are written alike.
    proof fn lemma_text_injective(a: UnaryOp, b: UnaryOp)
        requires
            a.text() == b.text(),
        ensures
            a == b,
    {
        reveal_strlit("-");
        assert("-"@.len() == 1 && "-"@[0] == '-');
        reveal_strlit("+");
        assert("+"@.len() == 1 && "+"@[0] == '+');
        reveal_strlit("!");
        assert("!"@.len() == 1 && "!"@[0] == '!');
        reveal_strlit("~");
        assert("~"@.len() == 1 && "~"@[0] == '~');
        reveal_strlit("typeof");
        assert("typeof"@.len() == 6 && "typeof"@[0] == 't' && "typeof"@[1] == 'y' && "typeof"@[2] == 'p');
        reveal_strlit("void");
        assert("void"@.len() == 4 && "void"@[0] == 'v' && "void"@[1] == 'o' && "void"@[2] == 'i');
        reveal_strlit("delete");
        assert("delete"@.len() == 6 && "delete"@[0] == 'd' && "delete"@[1] == 'e' && "delete"@[2] == 'l');
    }

    /// The operator that is written as `text`.
    fn from_text(text: &str) -> (r: UnaryOp)
        requires
            exists|op: UnaryOp| text@ == op.text(),
        ensures
            text@ == r.text(),
    {
        if same(text, "-") {
            UnaryOp::Minus
        } else if same(text, "+") {
            UnaryOp::Plus
        } else if same(text, "!") {
            UnaryOp::Bang
        } else if same(text, "~") {
            UnaryOp::Tilde
        } else if same(text, "typeof") {
            UnaryOp::TypeOf
        } else if same(text, "void") {
            UnaryOp::Void
        } else {
            UnaryOp::Delete
        }
    }
}

impl BinaryOp {
    /// No two operators are written alike.
    proof fn lemma_text_injective(a: BinaryOp, b: BinaryOp)
        requires
            a.text() == b.text(),
        ensures
            a == b,
    {
        reveal_strlit("==");
        assert("=="@.len() == 2 && "=="@[0] == '=' && "=="@[1] == '=');
        reveal_strlit("!=");
        assert("!="@.len() == 2 && "!="@[0] == '!' && "!="@[1] == '=');
        reveal_strlit("===");
        assert("==="@.len() == 3 && "==="@[0] == '=' && "==="@[1] == '=' && "==="@[2] == '=');
        reveal_strlit("!==");
        assert("!=="@.len() == 3 && "!=="@[0] == '!' && "!=="@[1] == '=' && "!=="@[2] == '=');
        reveal_strlit("<");
        assert("<"@.len() == 1 && "<"@[0] == '<');
        reveal_strlit("<=");
        assert("<="@.len() == 2 && "<="@[0] == '<' && "<="@[1] == '=');
        reveal_strlit(">");
        assert(">"@.len() == 1 && ">"@[0] == '>');
        reveal_strlit(">=");
        assert(">="@.len() == 2 && ">="@[0] == '>' && ">="@[1] == '=');
        reveal_strlit("<<");
        assert("<<"@.len() == 2 && "<<"@[0] == '<' && "<<"@[1] == '<');
        reveal_strlit(">>");
        assert(">>"@.len() == 2 && ">>"@[0] == '>' && ">>"@[1] == '>');
        reveal_strlit(">>>");
        assert(">>>"@.len() == 3 && ">>>"@[0] == '>' && ">>>"@[1] == '>' && ">>>"@[2] == '>');
        reveal_strlit("+");
        assert("+"@.len() == 1 && "+"@[0] == '+');
        reveal_strlit("-");
        assert("-"@.len() == 1 && "-"@[0] == '-');
        reveal_strlit("*");
        assert("*"@.len() == 1 && "*"@[0] == '*');
        reveal_strlit("/");
        assert("/"@.len() == 1 && "/"@[0] == '/');
        reveal_strlit("%");
        assert("%"@.len() == 1 && "%"@[0] == '%');
        reveal_strlit("|");
        assert("|"@.len() == 1 && "|"@[0] == '|');
        reveal_strlit("^");
        assert("^"@.len() == 1 && "^"@[0] == '^');
        reveal_strlit("&");
        assert("&"@.len() == 1 && "&"@[0] == '&');
        reveal_strlit("||");
        assert("||"@.len() == 2 && "||"@[0] == '|' && "||"@[1] == '|');
        reveal_strlit("&&");
        assert("&&"@.len() == 2 && "&&"@[0] == '&' && "&&"@[1] == '&');
        reveal_strlit("in");
        assert("in"@.len() == 2 && "in"@[0] == 'i' && "in"@[1] == 'n');
        reveal_strlit("instanceof");
        assert("instanceof"@.len() == 10 && "instanceof"@[0] == 'i' && "instanceof"@[1] == 'n' && "instanceof"@[2] == 's');
        reveal_strlit("**");
        assert("**"@.len() == 2 && "**"@[0] == '*' && "**"@[1] == '*');
        reveal_strlit("??");
        assert("??"@.len() == 2 && "??"@[0] == '?' && "??"@[1] == '?');
    }

    /// The operator that is written as `text`.
    fn from_text(text: &str) -> (r: BinaryOp)
        requires
            exists|op: BinaryOp| text@ == op.text(),
        ensures
            text@ == r.text(),
    {
        if same(text, "==") {
            BinaryOp::EqEq
        } else if same(text, "!=") {
            BinaryOp::NotEq
        } else if same(text, "===") {
            BinaryOp::EqEqEq
        } else if same(text, "!==") {
            BinaryOp::NotEqEq
        } else if same(text, "<") {
            BinaryOp::Lt
        } else if same(text, "<=") {
            BinaryOp::LtEq
        } else if same(text, ">") {
            BinaryOp::Gt
        } else if same(text, ">=") {
            BinaryOp::GtEq
        } else if same(text, "<<") {
            BinaryOp::LShift
        } else if same(text, ">>") {
            BinaryOp::RShift
        } else if same(text, ">>>") {
            BinaryOp::ZeroFillRShift
        } else if same(text, "+") {
            BinaryOp::Add
        } else if same(text, "-") {
            BinaryOp::Sub
        } else if same(text, "*") {
            BinaryOp::Mul
        } else if same(text, "/") {
            BinaryOp::Div
        } else if same(text, "%") {
            BinaryOp::Mod
        } else if same(text, "|") {
            BinaryOp::BitOr
        } else if same(text, "^") {
            BinaryOp::BitXor
        } else if same(text, "&") {
            BinaryOp::BitAnd
        } else if same(text, "||") {
            BinaryOp::LogicalOr
        } else if same(text, "&&") {
            BinaryOp::LogicalAnd
        } else if same(text, "in") {
            BinaryOp::In
        } else if same(text, "instanceof") {
            BinaryOp::InstanceOf
        } else if same(text, "**") {
            BinaryOp::Exp
        } else {
            BinaryOp::NullishCoalescing
        }
    }
}

impl ExprOrSuper {
    /// The same with the expression in the syntax tree of this crate.
    fn from_ast(callee: Result<&AstExpr, Span>) -> (r: ExprOrSuper)
        ensures
            r@ == contents_of_callee(callee),
        decreases contents_of_callee(callee), 1nat,
    {
        match callee {
            Ok(e) => {
                assert(decreases_to!(contents_of_callee(callee) => contents_of_callee(
                    callee,
                )->Expr_0));
                ExprOrSuper::Expr(Box::new(Expr::from_ast(e)))
            },
            Err(span) => ExprOrSuper::Super(span),
        }
    }
}

impl Expr {
    /// The expression `e` of the outside syntax tree in the one of this crate.
    pub fn from_ast(e: &AstExpr) -> (r: Expr)
        ensures
            r@ == contents(*e),
        decreases contents(*e), 0nat,
    {
        if let Some(parts) = ast_as_operator(e) {
            return match parts {
                AstOperator::Unary(span, text, arg) => {
                    let op = UnaryOp::from_text(text);
                    proof {
                        UnaryOp::lemma_text_injective(op, contents(*e)->Unary_op);
                    }
                    Expr::Unary(UnaryExpr { span, op, arg: Box::new(Expr::from_ast(arg)) })
                },
                AstOperator::Bin(span, text, left, right) => {
                    let op = BinaryOp::from_text(text);
                    proof {
                        BinaryOp::lemma_text_injective(op, contents(*e)->Bin_op);
                    }
                    let left = Box::new(Expr::from_ast(left));
                    let right = Box::new(Expr::from_ast(right));
                    Expr::Bin(BinExpr { span, op, left, right })
                },
                AstOperator::Assign(span, op, left, right) => Expr::Assign(
                    AssignExpr { span, op, left, right: Box::new(Expr::from_ast(right)) },
                ),
                AstOperator::Cond(span, test, cons, alt) => {
                    let test = Box::new(Expr::from_ast(test));
                    let cons = Box::new(Expr::from_ast(cons));
                    let alt = Box::new(Expr::from_ast(alt));
                    Expr::Cond(CondExpr { span, test, cons, alt })
                },
            };
        }
        if let Some(parts) = ast_as_member(e) {
            assert(decreases_to!(contents(*e) => contents(*e)->obj));
            assert(decreases_to!(contents(*e) => contents(*e)->prop));
            let obj = ExprOrSuper::from_ast(parts.obj);
            let prop = Box::new(Expr::from_ast(parts.prop));
            return Expr::Member(
                MemberExpr { span: parts.span, obj, prop, computed: parts.computed },
            );
        }
        if let Some(parts) = ast_as_call(e) {
            assert(decreases_to!(contents(*e) => contents(*e)->callee));
            let callee = ExprOrSuper::from_ast(parts.callee);
            let mut args: Vec<ExprOrSpread> = Vec::new();
            let mut i: usize = 0;
            while i < parts.args.len()
                invariant
                    contents(*e) is Call,
                    contents(*e)->args.len() == parts.args.len(),
                    forall|j: int|
                        0 <= j < parts.args.len() ==> #[trigger] contents(*e)->args[j] == (
                        ExprOrSpreadView {
                            spread: parts.args[j].0,
                            expr: contents(*parts.args[j].1),
                        }),
                    i <= parts.args.len(),
                    args.len() == i,
                    forall|j: int|
                        0 <= j < i ==> (#[trigger] args[j]).spread == contents(*e)->args[j].spread
                            && args[j].expr@ == contents(*e)->args[j].expr,
                decreases parts.args.len() - i,
            {
                assert(decreases_to!(contents(*e) => contents(*e)->args));
                assert(decreases_to!(contents(*e)->args => contents(*e)->args[i as int]));
                assert(decreases_to!(contents(*e)->args[i as int] => contents(
                    *e,
                )->args[i as int].expr));
                let (spread, arg) = parts.args[i];
                args.push(ExprOrSpread { spread, expr: Box::new(Expr::from_ast(arg)) });
                i += 1;
            }
            let r = Expr::Call(
                CallExpr { span: parts.span, callee, args, type_args: parts.type_args },
            );
            proof {
                assert(r@->args =~= contents(*e)->args);
            }
            return r;
        }
        if let Some((span, parts)) = ast_as_seq(e) {
            let mut exprs: Vec<Expr> = Vec::new();
            let mut i: usize = 0;
            while i < parts.len()
                invariant
                    contents(*e) is Sequence,
                    contents(*e)->exprs.len() == parts.len(),
                    forall|j: int|
                        0 <= j < parts.len() ==> #[trigger] contents(*e)->exprs[j] == contents(
                            *parts[j],
                        ),
                    i <= parts.len(),
                    exprs.len() == i,
                    forall|j: int|
                        0 <= j < i ==> (#[trigger] exprs[j])@ == contents(*e)->exprs[j],
                decreases parts.len() - i,
            {
                assert(decreases_to!(contents(*e) => contents(*e)->exprs));
                assert(decreases_to!(contents(*e)->exprs => contents(*e)->exprs[i as int]));
                exprs.push(Expr::from_ast(parts[i]));
                i += 1;
            }
            let r = Expr::Sequence(SeqExpr { span, exprs });
            proof {
                assert(r@->exprs =~= contents(*e)->exprs);
            }
            return r;
        }
        if let Some((span, sym, optional)) = ast_as_ident(e) {
            return Expr::Ident(Ident { span, sym, optional });
        }
        match Leaf::new(ast_clone(e)) {
            Ok(leaf) => Expr::Leaf(leaf),
            Err(_) => unreached(),
        }
    }
}

}
