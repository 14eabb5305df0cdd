//! That views show what is there, operators are written as they are in JavaScript, and what counts
//! as a side effect.

use crate::effects::has_effects;
use crate::number::{NumberPlan, NumberPlanView};
use crate::stmt::{Stmt, StmtView};
use crate::syntax::{
    BinaryOp, Expr, ExprOrSuper, ExprOrSuperView, ExprView, Ident, LeafKind, LeafKindView, UnaryOp,
};
use crate::target::{Pat, PatOrExpr, PatOrExprView, PatView};
use vstd::prelude::*;

verus! {

/// The text of each prefix operator.
pub proof fn law_prefix_operators_as_written()
    ensures
        UnaryOp::Minus.text() == seq!['-'],
        UnaryOp::Plus.text() == seq!['+'],
        UnaryOp::Bang.text() == seq!['!'],
        UnaryOp::Tilde.text() == seq!['~'],
        UnaryOp::TypeOf.text() == seq!['t', 'y', 'p', 'e', 'o', 'f'],
        UnaryOp::Void.text() == seq!['v', 'o', 'i', 'd'],
        UnaryOp::Delete.text() == seq!['d', 'e', 'l', 'e', 't', 'e'],
{
    reveal_strlit("-");
    assert(UnaryOp::Minus.text() =~= seq!['-']);
    reveal_strlit("+");
    assert(UnaryOp::Plus.text() =~= seq!['+']);
    reveal_strlit("!");
    assert(UnaryOp::Bang.text() =~= seq!['!']);
    reveal_strlit("~");
    assert(UnaryOp::Tilde.text() =~= seq!['~']);
    reveal_strlit("typeof");
    assert(UnaryOp::TypeOf.text() =~= seq!['t', 'y', 'p', 'e', 'o', 'f']);
    reveal_strlit("void");
    assert(UnaryOp::Void.text() =~= seq!['v', 'o', 'i', 'd']);
    reveal_strlit("delete");
    assert(UnaryOp::Delete.text() =~= seq!['d', 'e', 'l', 'e', 't', 'e']);
}

/// The text of each infix operator.
pub proof fn law_infix_operators_as_written()
    ensures
        BinaryOp::EqEq.text() == seq!['=', '='],
        BinaryOp::NotEq.text() == seq!['!', '='],
        BinaryOp::EqEqEq.text() == seq!['=', '=', '='],
        BinaryOp::NotEqEq.text() == seq!['!', '=', '='],
        BinaryOp::Lt.text() == seq!['<'],
        BinaryOp::LtEq.text() == seq!['<', '='],
        BinaryOp::Gt.text() == seq!['>'],
        BinaryOp::GtEq.text() == seq!['>', '='],
        BinaryOp::LShift.text() == seq!['<', '<'],
        BinaryOp::RShift.text() == seq!['>', '>'],
        BinaryOp::ZeroFillRShift.text() == seq!['>', '>', '>'],
        BinaryOp::Add.text() == seq!['+'],
        BinaryOp::Sub.text() == seq!['-'],
        BinaryOp::Mul.text() == seq!['*'],
        BinaryOp::Div.text() == seq!['/'],
        BinaryOp::Mod.text() == seq!['%'],
        BinaryOp::BitOr.text() == seq!['|'],
        BinaryOp::BitXor.text() == seq!['^'],
        BinaryOp::BitAnd.text() == seq!['&'],
        BinaryOp::LogicalOr.text() == seq!['|', '|'],
        BinaryOp::LogicalAnd.text() == seq!['&', '&'],
        BinaryOp::In.text() == seq!['i', 'n'],
        BinaryOp::InstanceOf.text() == seq!['i', 'n', 's', 't', 'a', 'n', 'c', 'e', 'o', 'f'],
        BinaryOp::Exp.text() == seq!['*', '*'],
        BinaryOp::NullishCoalescing.text() == seq!['?', '?'],
{
    reveal_strlit("==");
    assert(BinaryOp::EqEq.text() =~= seq!['=', '=']);
    reveal_strlit("!=");
    assert(BinaryOp::NotEq.text() =~= seq!['!', '=']);
    reveal_strlit("===");
    assert(BinaryOp::EqEqEq.text() =~= seq!['=', '=', '=']);
    reveal_strlit("!==");
    assert(BinaryOp::NotEqEq.text() =~= seq!['!', '=', '=']);
    reveal_strlit("<");
    assert(BinaryOp::Lt.text() =~= seq!['<']);
    reveal_strlit("<=");
    assert(BinaryOp::LtEq.text() =~= seq!['<', '=']);
    reveal_strlit(">");
    assert(BinaryOp::Gt.text() =~= seq!['>']);
    reveal_strlit(">=");
    assert(BinaryOp::GtEq.text() =~= seq!['>', '=']);
    reveal_strlit("<<");
    assert(BinaryOp::LShift.text() =~= seq!['<', '<']);
    reveal_strlit(">>");
    assert(BinaryOp::RShift.text() =~= seq!['>', '>']);
    reveal_strlit(">>>");
    assert(BinaryOp::ZeroFillRShift.text() =~= seq!['>', '>', '>']);
    reveal_strlit("+");
    assert(BinaryOp::Add.text() =~= seq!['+']);
    reveal_strlit("-");
    assert(BinaryOp::Sub.text() =~= seq!['-']);
    reveal_strlit("*");
    assert(BinaryOp::Mul.text() =~= seq!['*']);
    reveal_strlit("/");
    assert(BinaryOp::Div.text() =~= seq!['/']);
    reveal_strlit("%");
    assert(BinaryOp::Mod.text() =~= seq!['%']);
    reveal_strlit("|");
    assert(BinaryOp::BitOr.text() =~= seq!['|']);
    reveal_strlit("^");
    assert(BinaryOp::BitXor.text() =~= seq!['^']);
    reveal_strlit("&");
    assert(BinaryOp::BitAnd.text() =~= seq!['&']);
    reveal_strlit("||");
    assert(BinaryOp::LogicalOr.text() =~= seq!['|', '|']);
    reveal_strlit("&&");
    assert(BinaryOp::LogicalAnd.text() =~= seq!['&', '&']);
    reveal_strlit("in");
    assert(BinaryOp::In.text() =~= seq!['i', 'n']);
    reveal_strlit("instanceof");
    assert(BinaryOp::InstanceOf.text() =~= seq!['i', 'n', 's', 't', 'a', 'n', 'c', 'e', 'o', 'f']);
    reveal_strlit("**");
    assert(BinaryOp::Exp.text() =~= seq!['*', '*']);
    reveal_strlit("??");
    assert(BinaryOp::NullishCoalescing.text() =~= seq!['?', '?']);
}

/// The view of an expression shows every field, each child by its own view and in its place.
pub proof fn law_view_of_expression(e: Expr)
    ensures
        match e {
            Expr::Unary(x) => e@ is Unary && e@->Unary_span == x.span && e@->Unary_op == x.op
                && *e@->arg == x.arg@,
            Expr::Bin(x) => e@ is Bin && e@->Bin_span == x.span && e@->Bin_op == x.op
                && *e@->Bin_left == x.left@ && *e@->Bin_right == x.right@,
            Expr::Assign(x) => e@ is Assign && e@->Assign_span == x.span && e@->Assign_op == x.op
                && e@->Assign_left == x.left && *e@->Assign_right == x.right@,
            Expr::Member(x) => e@ is Member && e@->Member_span == x.span && e@->obj == x.obj@
                && *e@->prop == x.prop@ && e@->computed == x.computed,
            Expr::Cond(x) => e@ is Cond && e@->Cond_span == x.span && *e@->test == x.test@
                && *e@->cons == x.cons@ && *e@->alt == x.alt@,
            Expr::Call(x) => e@ is Call && e@->Call_span == x.span && e@->callee == x.callee@
                && e@->type_args == x.type_args && e@->args.len() == x.args@.len() && forall|i: int|
                0 <= i < x.args@.len() ==> (#[trigger] e@->args[i]).spread == x.args@[i].spread
                    && e@->args[i].expr == x.args@[i].expr@,
            Expr::Sequence(x) => e@ is Sequence && e@->Sequence_span == x.span && e@->exprs.len()
                == x.exprs@.len() && forall|i: int|
                0 <= i < x.exprs@.len() ==> #[trigger] e@->exprs[i] == x.exprs@[i]@,
            Expr::Ident(x) => e@ == x@,
            Expr::Leaf(x) => e@ == (ExprView::Leaf { kind: x.kind_view(), node: x.node_view() }),
        },
{
}

/// The view of an identifier shows its name, its place and whether it is optional.
pub proof fn law_view_of_identifier(x: Ident)
    ensures
        x@ is Ident && x@->Ident_span == x.span && x@->sym == x.sym@ && x@->optional == x.optional,
{
}

/// The view of an object or a function tells `super` from an expression.
pub proof fn law_view_of_callee(x: ExprOrSuper)
    ensures
        x matches ExprOrSuper::Super(span) ==> x@ == ExprOrSuperView::Super(span),
        x matches ExprOrSuper::Expr(e) ==> x@ is Expr && *x@->Expr_0 == e@,
{
}

/// The view of a kind of leaf is the kind of that name with what it tells.
pub proof fn law_view_of_leaf_kind(k: LeafKind)
    ensures
        k is Update == k.view() is Update,
        k is New == k.view() is New,
        k is Null == k.view() is Null,
        k is Lit == k.view() is Lit,
        k matches LeafKind::Fn { is_pure_callee: p } ==> k.view() == (LeafKindView::Fn {
            is_pure_callee: p,
        }),
        k matches LeafKind::Str(text) ==> k.view() == LeafKindView::Str(text@),
        k matches LeafKind::Other { has_effects: h } ==> k.view() == (LeafKindView::Other {
            has_effects: h,
        }),
{
}

/// The view of a statement is the statement of that form with the views of its parts.
pub proof fn law_view_of_statement(s: Stmt)
    ensures
        s is Return == s@ is Return,
        s is Throw == s@ is Throw,
        s is Break == s@ is Break,
        s is Continue == s@ is Continue,
        s is Other == s@ is Other,
        s matches Stmt::Expr(x) ==> s@ == (StmtView::Expr { expr: x.expr@ }),
        s matches Stmt::If(x) ==> s@ is If && *s@->cons == x.cons@ && s@->alt is Some
            == x.alt is Some && (x.alt matches Some(alt) ==> *s@->alt->0 == alt@),
        s matches Stmt::Block(x) ==> s@ is Block && s@->stmts.len() == x.stmts@.len() && forall|i: int|
            0 <= i < x.stmts@.len() ==> #[trigger] s@->stmts[i] == x.stmts@[i]@,
{
}

/// The view of a target tells an expression from the patterns, with the views of its parts.
pub proof fn law_view_of_target(e: PatOrExpr, p: Pat)
    ensures
        e matches PatOrExpr::Expr(x) ==> e@ == PatOrExprView::Expr(x@),
        e matches PatOrExpr::Pat(x) ==> e@ == PatOrExprView::Pat(x@),
        p matches Pat::Ident(x) ==> p@ == (PatView::Ident { id: x.id@, type_ann: x.type_ann }),
        p matches Pat::Expr(x) ==> p@ == PatView::Expr(x@),
        p matches Pat::Other(x) ==> p@ == PatView::Other(x),
{
}

/// The view of a plan is the plan of that name with the views of its parts in their order.
pub proof fn law_view_of_plan(p: NumberPlan)
    ensures
        match p {
            NumberPlan::Sub(x, y) => p@ is Sub && *p@->Sub_0 == x@ && *p@->Sub_1 == y@,
            NumberPlan::Cos(x) => p@ is Cos && *p@->Cos_0 == x@,
            NumberPlan::Sin(x) => p@ is Sin && *p@->Sin_0 == x@,
            NumberPlan::Max(v) => p@ is Max && p@->Max_0.len() == v@.len() && forall|i: int|
                0 <= i < v@.len() ==> #[trigger] p@->Max_0[i] == v@[i]@,
            NumberPlan::Min(v) => p@ is Min && p@->Min_0.len() == v@.len() && forall|i: int|
                0 <= i < v@.len() ==> #[trigger] p@->Min_0[i] == v@[i]@,
            NumberPlan::Pow(x, y) => p@ is Pow && *p@->Pow_0 == x@ && *p@->Pow_1 == y@,
            NumberPlan::Pi => p@ is Pi,
            NumberPlan::E => p@ is E,
            NumberPlan::Ln10 => p@ is Ln10,
            NumberPlan::Cast(e) => p@ == NumberPlanView::Cast(e@),
        },
{
}

/// Identifiers, literals and function expressions have no side effects; assignments, updates and
/// `new` have some; of any other leaf its kind tells.
pub proof fn law_effects_of_simple(e: ExprView)
    ensures
        e is Ident ==> !has_effects(e),
        e is Assign ==> has_effects(e),
        e matches ExprView::Leaf { kind, .. } && (kind is Fn || kind is Str || kind is Null
            || kind is Lit) ==> !has_effects(e),
        e matches ExprView::Leaf { kind, .. } && (kind is Update || kind is New) ==> has_effects(e),
        e matches ExprView::Leaf { kind: LeafKindView::Other { has_effects: h }, .. }
            ==> has_effects(e) == h,
{
}

/// An operator, a conditional and a sequence have side effects exactly where a part of them has.
pub proof fn law_effects_of_parts(e: ExprView)
    ensures
        e matches ExprView::Unary { arg, .. } ==> has_effects(e) == has_effects(*arg),
        e matches ExprView::Bin { left, right, .. } ==> has_effects(e) == (has_effects(*left)
            || has_effects(*right)),
        e matches ExprView::Cond { test, cons, alt, .. } ==> has_effects(e) == (has_effects(*test)
            || has_effects(*cons) || has_effects(*alt)),
        e matches ExprView::Sequence { exprs, .. } ==> has_effects(e) == exists|i: int|
            0 <= i < exprs.len() && has_effects(#[trigger] exprs[i]),
{
}

/// Whether `x` is the identifier `name`.
pub open spec fn is_named(x: ExprView, name: Seq<char>) -> bool {
    x matches ExprView::Ident { sym, .. } && sym == name
}

/// A member has side effects unless it is one of `Math`. A call has some unless it calls `Date`, a
/// member of `Math` or a function expression that does nothing, and no argument has any.
pub proof fn law_effects_of_members_and_calls(e: ExprView)
    ensures
        e matches ExprView::Member { obj: ExprOrSuperView::Super(_), .. } ==> has_effects(e),
        e matches ExprView::Member { obj: ExprOrSuperView::Expr(x), .. } ==> has_effects(e)
            == !is_named(*x, "Math"@),
        e matches ExprView::Call { callee: ExprOrSuperView::Super(_), .. } ==> has_effects(e),
        e matches ExprView::Call { callee: ExprOrSuperView::Expr(f), args, .. } ==> {
            let does_nothing = {
                ||| is_named(*f, "Date"@)
                ||| *f matches ExprView::Member { obj: ExprOrSuperView::Expr(x), .. } && is_named(
                    *x,
                    "Math"@,
                )
                ||| *f matches ExprView::Leaf {
                    kind: LeafKindView::Fn { is_pure_callee: true },
                    ..
                }
            };
            has_effects(e) == (!does_nothing || exists|i: int|
                0 <= i < args.len() && has_effects((#[trigger] args[i]).expr))
        },
{
}

}
