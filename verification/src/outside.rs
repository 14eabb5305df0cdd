//! The outside crates, as far as this crate calls them.
//!
//! Everything that is believed without proof stands in this file: the outside types, the names
//! for what outside functions return, and the wrappers that make the calls.

use crate::effects::has_effects;
use crate::syntax::{
    BinaryOp, ExprOrSpreadView, ExprOrSuperView, ExprView, LeafKind, UnaryOp,
};
use swc_common::{BytePos, Span, SyntaxContext, DUMMY_SP};
use swc_ecma_ast::AssignOp as AstAssignOp;
use swc_ecma_ast::Expr as AstExpr;
use swc_ecma_ast::ExprOrSuper as AstExprOrSuper;
use swc_ecma_ast::Ident as AstIdent;
use swc_ecma_ast::IdentExt;
use swc_ecma_ast::Lit as AstLit;
use swc_ecma_ast::Pat as AstPat;
use swc_ecma_ast::PatOrExpr as AstPatOrExpr;
use swc_ecma_ast::TsTypeAnn as AstTypeAnn;
use swc_ecma_ast::TsTypeParamInstantiation as AstTypeArgs;
use swc_ecma_ast::{
    AssignExpr as AstAssignExpr, BinExpr as AstBinExpr, CallExpr as AstCallExpr,
    CondExpr as AstCondExpr, ExprOrSpread as AstExprOrSpread, MemberExpr as AstMemberExpr,
    SeqExpr as AstSeqExpr, Super as AstSuper, UnaryExpr as AstUnaryExpr,
};
use swc_ecma_utils::{ExprExt, UsageFinder};
use unicode_xid::UnicodeXID;
use vstd::prelude::*;

verus! {

/// `swc_ecma_ast::Expr`, of which [`contents`] says what it holds.
#[verifier::external_type_specification]
#[verifier::external_body]
pub struct ExExpr(AstExpr);

/// `swc_ecma_ast::PatOrExpr`, carried as it is.
#[verifier::external_type_specification]
#[verifier::external_body]
pub struct ExPatOrExpr(AstPatOrExpr);

/// `swc_ecma_ast::AssignOp`, carried as it is.
#[verifier::external_type_specification]
#[verifier::external_body]
pub struct ExAssignOp(AstAssignOp);

/// `swc_ecma_ast::TsTypeParamInstantiation`, carried as it is.
#[verifier::external_type_specification]
#[verifier::external_body]
pub struct ExTypeArgs(AstTypeArgs);

/// `swc_ecma_ast::Pat`, carried as it is.
#[verifier::external_type_specification]
#[verifier::external_body]
pub struct ExPat(AstPat);

/// `swc_ecma_ast::TsTypeAnn`, carried as it is.
#[verifier::external_type_specification]
#[verifier::external_body]
pub struct ExTypeAnn(AstTypeAnn);

/// `swc_common::Span`, carried as it is or made by [`new_span`].
#[verifier::external_type_specification]
#[verifier::external_body]
pub struct ExSpan(Span);

/// `swc_common::SyntaxContext`, carried as it is.
#[verifier::external_type_specification]
#[verifier::external_body]
pub struct ExSyntaxContext(SyntaxContext);

/// What an outside expression holds, as the view of an expression of this crate.
pub uninterp spec fn contents(e: AstExpr) -> ExprView;

/// Tells the kinds of `swc_ecma_ast::Expr` apart that this crate takes apart from the others. Of
/// a function expression the view holds the answer of `swc_ecma_utils::ExprExt::is_pure_callee`,
/// of an expression of any other kind that of `ExprExt::may_have_side_effects`; both depend on
/// the expression alone.
#[verifier::external_body]
pub(crate) fn ast_leaf_kind(e: &AstExpr) -> (r: Option<LeafKind>)
    ensures
        match r {
            Some(kind) => contents(*e) == (ExprView::Leaf { kind: kind.view(), node: *e }),
            None => !(contents(*e) is Leaf),
        },
{
    match e {
        AstExpr::Update(..) => Some(LeafKind::Update),
        AstExpr::New(..) => Some(LeafKind::New),
        AstExpr::Fn(..) => Some(LeafKind::Fn { is_pure_callee: e.is_pure_callee() }),
        AstExpr::Lit(AstLit::Str(s)) => Some(LeafKind::Str(s.value.to_string())),
        AstExpr::Lit(AstLit::Null(..)) => Some(LeafKind::Null),
        AstExpr::Lit(..) => Some(LeafKind::Lit),
        AstExpr::Unary(..) | AstExpr::Bin(..) | AstExpr::Assign(..) | AstExpr::Member(..) => None,
        AstExpr::Cond(..) | AstExpr::Call(..) | AstExpr::Seq(..) | AstExpr::Ident(..) => None,
        _ => Some(LeafKind::Other { has_effects: e.may_have_side_effects() }),
    }
}

/// What stands in front of a member access or a call, with the expression already outside.
pub enum AstCallee {
    Super(Span),
    Expr(AstExpr),
}

impl AstCallee {
    pub open spec fn view(self) -> ExprOrSuperView {
        match self {
            AstCallee::Super(span) => ExprOrSuperView::Super(span),
            AstCallee::Expr(e) => ExprOrSuperView::Expr(Box::new(contents(e))),
        }
    }
}

/// The views of outside expressions.
pub open spec fn contents_of_all(exprs: Seq<AstExpr>) -> Seq<ExprView> {
    exprs.map_values(|e: AstExpr| contents(e))
}

/// The views of arguments of a call.
pub open spec fn contents_of_args(args: Seq<(Option<Span>, AstExpr)>) -> Seq<ExprOrSpreadView> {
    args.map_values(
        |a: (Option<Span>, AstExpr)| ExprOrSpreadView { spread: a.0, expr: contents(a.1) },
    )
}

/// Builds a `swc_ecma_ast::UnaryExpr` that holds what it is given. The operator is parsed from
/// its text by `<swc_ecma_ast::UnaryOp as FromStr>::from_str`, which knows each of them.
#[verifier::external_body]
pub(crate) fn ast_unary(span: Span, op: UnaryOp, text: &str, arg: AstExpr) -> (r: AstExpr)
    requires
        text@ == op.text(),
    ensures
        contents(r) == (ExprView::Unary { span, op, arg: Box::new(contents(arg)) }),
{
    AstExpr::Unary(AstUnaryExpr { span, op: text.parse().unwrap(), arg: Box::new(arg) })
}

/// Builds a `swc_ecma_ast::BinExpr` that holds what it is given. The operator is parsed from its
/// text by `<swc_ecma_ast::BinaryOp as FromStr>::from_str`, which knows each of them.
#[verifier::external_body]
pub(crate) fn ast_bin(
    span: Span,
    op: BinaryOp,
    text: &str,
    left: AstExpr,
    right: AstExpr,
) -> (r: AstExpr)
    requires
        text@ == op.text(),
    ensures
        contents(r) == (ExprView::Bin {
            span,
            op,
            left: Box::new(contents(left)),
            right: Box::new(contents(right)),
        }),
{
    let op = text.parse().unwrap();
    AstExpr::Bin(AstBinExpr { span, op, left: Box::new(left), right: Box::new(right) })
}

/// Builds a `swc_ecma_ast::AssignExpr` that holds what it is given.
#[verifier::external_body]
pub(crate) fn ast_assign(
    span: Span,
    op: AstAssignOp,
    left: &AstPatOrExpr,
    right: AstExpr,
) -> (r: AstExpr)
    ensures
        contents(r) == (ExprView::Assign {
            span,
            op,
            left: *left,
            right: Box::new(contents(right)),
        }),
{
    AstExpr::Assign(AstAssignExpr { span, op, left: left.clone(), right: Box::new(right) })
}

/// Builds a `swc_ecma_ast::MemberExpr` that holds what it is given.
#[verifier::external_body]
pub(crate) fn ast_member(
    span: Span,
    obj: AstCallee,
    prop: AstExpr,
    computed: bool,
) -> (r: AstExpr)
    ensures
        contents(r) == (ExprView::Member {
            span,
            obj: obj.view(),
            prop: Box::new(contents(prop)),
            computed,
        }),
{
    let obj = match obj {
        AstCallee::Super(span) => AstExprOrSuper::Super(AstSuper { span }),
        AstCallee::Expr(e) => AstExprOrSuper::Expr(Box::new(e)),
    };
    AstExpr::Member(AstMemberExpr { span, obj, prop: Box::new(prop), computed })
}

/// Builds a `swc_ecma_ast::CondExpr` that holds what it is given.
#[verifier::external_body]
pub(crate) fn ast_cond(span: Span, test: AstExpr, cons: AstExpr, alt: AstExpr) -> (r: AstExpr)
    ensures
        contents(r) == (ExprView::Cond {
            span,
            test: Box::new(contents(test)),
            cons: Box::new(contents(cons)),
            alt: Box::new(contents(alt)),
        }),
{
    let (test, cons, alt) = (Box::new(test), Box::new(cons), Box::new(alt));
    AstExpr::Cond(AstCondExpr { span, test, cons, alt })
}

/// Builds a `swc_ecma_ast::CallExpr` that holds what it is given.
#[verifier::external_body]
pub(crate) fn ast_call(
    span: Span,
    callee: AstCallee,
    args: Vec<(Option<Span>, AstExpr)>,
    type_args: &Option<AstTypeArgs>,
) -> (r: AstExpr)
    ensures
        contents(r) == (ExprView::Call {
            span,
            callee: callee.view(),
            args: contents_of_args(args@),
            type_args: *type_args,
        }),
{
    let callee = match callee {
        AstCallee::Super(span) => AstExprOrSuper::Super(AstSuper { span }),
        AstCallee::Expr(e) => AstExprOrSuper::Expr(Box::new(e)),
    };
    let args = args
        .into_iter()
        .map(|(spread, e)| AstExprOrSpread { spread, expr: Box::new(e) })
        .collect();
    AstExpr::Call(AstCallExpr { span, callee, args, type_args: type_args.clone() })
}

/// Builds a `swc_ecma_ast::SeqExpr` that holds what it is given.
#[verifier::external_body]
pub(crate) fn ast_seq(span: Span, exprs: Vec<AstExpr>) -> (r: AstExpr)
    ensures
        contents(r) == (ExprView::Sequence { span, exprs: contents_of_all(exprs@) }),
{
    AstExpr::Seq(AstSeqExpr { span, exprs: exprs.into_iter().map(Box::new).collect() })
}

/// Builds a `swc_ecma_ast::Ident` that holds what it is given.
#[verifier::external_body]
pub(crate) fn ast_ident(span: Span, sym: &str, optional: bool) -> (r: AstExpr)
    ensures
        contents(r) == (ExprView::Ident { span, sym: sym@, optional }),
{
    AstExpr::Ident(AstIdent { span, sym: sym.into(), optional })
}

/// Copies an expression by `<swc_ecma_ast::Expr as Clone>::clone`: the copy holds the same.
#[verifier::external_body]
pub(crate) fn ast_clone(e: &AstExpr) -> (r: AstExpr)
    ensures
        contents(r) == contents(*e),
{
    e.clone()
}

/// The parts of an outside expression that an operator makes of other expressions. Operators are
/// given by their text.
pub enum AstOperator<'a> {
    Unary(Span, &'static str, &'a AstExpr),
    Bin(Span, &'static str, &'a AstExpr, &'a AstExpr),
    Assign(Span, AstAssignOp, AstPatOrExpr, &'a AstExpr),
    Cond(Span, &'a AstExpr, &'a AstExpr, &'a AstExpr),
}

impl<'a> AstOperator<'a> {
    /// Whether these are the parts of `e`.
    pub open spec fn are_of(self, e: ExprView) -> bool {
        match (self, e) {
            (AstOperator::Unary(s, text, a), ExprView::Unary { span, op, arg }) => {
                s == span && text@ == op.text() && contents(*a) == *arg
            },
            (AstOperator::Bin(s, text, l, r), ExprView::Bin { span, op, left, right }) => {
                s == span && text@ == op.text() && contents(*l) == *left && contents(*r) == *right
            },
            (AstOperator::Assign(s, o, l, r), ExprView::Assign { span, op, left, right }) => {
                s == span && o == op && l == left && contents(*r) == *right
            },
            (AstOperator::Cond(s, t, c, a), ExprView::Cond { span, test, cons, alt }) => {
                s == span && contents(*t) == *test && contents(*c) == *cons && contents(*a) == *alt
            },
            _ => false,
        }
    }
}

/// Hands out the fields of a `swc_ecma_ast::UnaryExpr`, `BinExpr`, `AssignExpr` or `CondExpr`,
/// the text of an operator by its `as_str`.
#[verifier::external_body]
pub(crate) fn ast_as_operator<'a>(e: &'a AstExpr) -> (r: Option<AstOperator<'a>>)
    ensures
        match r {
            Some(parts) => parts.are_of(contents(*e)),
            None => !(contents(*e) is Unary) && !(contents(*e) is Bin) && !(contents(*e) is Assign)
                && !(contents(*e) is Cond),
        },
{
    match e {
        AstExpr::Unary(n) => Some(AstOperator::Unary(n.span, n.op.as_str(), &n.arg)),
        AstExpr::Bin(n) => Some(AstOperator::Bin(n.span, n.op.as_str(), &n.left, &n.right)),
        AstExpr::Assign(n) => Some(AstOperator::Assign(n.span, n.op, n.left.clone(), &n.right)),
        AstExpr::Cond(n) => Some(AstOperator::Cond(n.span, &n.test, &n.cons, &n.alt)),
        _ => None,
    }
}

/// The parts of an outside member access.
pub struct AstMember<'a> {
    pub span: Span,
    /// The object, or the place of `super`.
    pub obj: Result<&'a AstExpr, Span>,
    pub prop: &'a AstExpr,
    pub computed: bool,
}

/// The view of what stands in front of a member access or a call.
pub open spec fn contents_of_callee(callee: Result<&AstExpr, Span>) -> ExprOrSuperView {
    match callee {
        Ok(e) => ExprOrSuperView::Expr(Box::new(contents(*e))),
        Err(span) => ExprOrSuperView::Super(span),
    }
}

/// Hands out the fields of a `swc_ecma_ast::MemberExpr`.
#[verifier::external_body]
pub(crate) fn ast_as_member<'a>(e: &'a AstExpr) -> (r: Option<AstMember<'a>>)
    ensures
        match r {
            Some(parts) => contents(*e) == (ExprView::Member {
                span: parts.span,
                obj: contents_of_callee(parts.obj),
                prop: Box::new(contents(*parts.prop)),
                computed: parts.computed,
            }),
            None => !(contents(*e) is Member),
        },
{
    match e {
        AstExpr::Member(n) => {
            let obj = match &n.obj {
                AstExprOrSuper::Super(s) => Err(s.span),
                AstExprOrSuper::Expr(e) => Ok(&**e),
            };
            Some(AstMember { span: n.span, obj, prop: &n.prop, computed: n.computed })
        },
        _ => None,
    }
}

/// The parts of an outside call.
pub struct AstCall<'a> {
    pub span: Span,
    /// The function, or the place of `super`.
    pub callee: Result<&'a AstExpr, Span>,
    pub args: Vec<(Option<Span>, &'a AstExpr)>,
    pub type_args: Option<AstTypeArgs>,
}

/// Hands out the fields of a `swc_ecma_ast::CallExpr`.
#[verifier::external_body]
pub(crate) fn ast_as_call<'a>(e: &'a AstExpr) -> (r: Option<AstCall<'a>>)
    ensures
        match r {
            Some(parts) => contents(*e) == (ExprView::Call {
                span: parts.span,
                callee: contents_of_callee(parts.callee),
                args: parts.args@.map_values(
                    |a: (Option<Span>, &AstExpr)|
                        ExprOrSpreadView { spread: a.0, expr: contents(*a.1) },
                ),
                type_args: parts.type_args,
            }),
            None => !(contents(*e) is Call),
        },
{
    match e {
        AstExpr::Call(n) => {
            let callee = match &n.callee {
                AstExprOrSuper::Super(s) => Err(s.span),
                AstExprOrSuper::Expr(e) => Ok(&**e),
            };
            let args = n.args.iter().map(|a| (a.spread, &*a.expr)).collect();
            Some(AstCall { span: n.span, callee, args, type_args: n.type_args.clone() })
        },
        _ => None,
    }
}

/// Hands out the fields of a `swc_ecma_ast::SeqExpr`.
#[verifier::external_body]
pub(crate) fn ast_as_seq<'a>(e: &'a AstExpr) -> (r: Option<(Span, Vec<&'a AstExpr>)>)
    ensures
        match r {
            Some((span, exprs)) => contents(*e) == (ExprView::Sequence {
                span,
                exprs: exprs@.map_values(|x: &AstExpr| contents(*x)),
            }),
            None => !(contents(*e) is Sequence),
        },
{
    match e {
        AstExpr::Seq(n) => Some((n.span, n.exprs.iter().map(|x| &**x).collect())),
        _ => None,
    }
}

/// Hands out the fields of a `swc_ecma_ast::Ident`.
#[verifier::external_body]
pub(crate) fn ast_as_ident(e: &AstExpr) -> (r: Option<(Span, String, bool)>)
    ensures
        match r {
            Some((span, sym, optional)) => contents(*e) == (ExprView::Ident {
                span,
                sym: sym@,
                optional,
            }),
            None => !(contents(*e) is Ident),
        },
{
    match e {
        AstExpr::Ident(n) => Some((n.span, n.sym.to_string(), n.optional)),
        _ => None,
    }
}

/// Names the result of `swc_common::Span::new` between two positions, outside any syntax context.
/// The dummy span of generated code is the one from 0 to 0.
pub uninterp spec fn span_at(lo: u32, hi: u32) -> Span;

/// Calls `swc_common::Span::new`, whose result `span_at` names.
#[verifier::external_body]
pub(crate) fn new_span(lo: u32, hi: u32) -> (r: Span)
    ensures
        r == span_at(lo, hi),
{
    Span::new(BytePos(lo), BytePos(hi), SyntaxContext::empty())
}

/// Calls `swc_ecma_utils::ExprExt::may_have_side_effects`. Its answer depends on what the
/// expression holds alone, as [`has_effects`] says.
#[verifier::external_body]
pub(crate) fn ast_may_have_side_effects(e: &AstExpr) -> (r: bool)
    ensures
        r == has_effects(contents(*e)),
{
    e.may_have_side_effects()
}

/// Names the answer of `swc_ecma_utils::UsageFinder::find`.
pub uninterp spec fn ident_used(sym: Seq<char>, ctxt: SyntaxContext, e: ExprView) -> bool;

/// Calls `swc_ecma_utils::UsageFinder::find` for the identifier of the given name and syntax
/// context. The answer depends on these and on what the expression holds.
#[verifier::external_body]
pub(crate) fn ast_uses_ident(sym: &str, ctxt: SyntaxContext, e: &AstExpr) -> (r: bool)
    ensures
        r == ident_used(sym@, ctxt, contents(*e)),
{
    UsageFinder::find(&AstIdent::new(sym.into(), DUMMY_SP.with_ctxt(ctxt)), e)
}

/// `a` to `z` and `A` to `Z`
pub open spec fn is_ascii_letter(c: char) -> bool {
    'a' <= c <= 'z' || 'A' <= c <= 'Z'
}

/// `a` to `z`, `A` to `Z`, `0` to `9` and `_`
pub open spec fn is_ascii_word_char(c: char) -> bool {
    is_ascii_letter(c) || '0' <= c <= '9' || c == '_'
}

/// Names the answer of `<char as unicode_xid::UnicodeXID>::is_xid_start`.
pub uninterp spec fn xid_start(c: char) -> bool;

/// Calls `<char as unicode_xid::UnicodeXID>::is_xid_start`. Among the ASCII characters these are
/// the letters.
#[verifier::external_body]
pub(crate) fn is_xid_start(c: char) -> (r: bool)
    ensures
        r == xid_start(c),
        c <= '\u{7f}' ==> r == is_ascii_letter(c),
{
    c.is_xid_start()
}

/// Names the answer of `<char as unicode_xid::UnicodeXID>::is_xid_continue`.
pub uninterp spec fn xid_continue(c: char) -> bool;

/// Calls `<char as unicode_xid::UnicodeXID>::is_xid_continue`. Among the ASCII characters these
/// are the letters, the digits and `_`.
#[verifier::external_body]
pub(crate) fn is_xid_continue(c: char) -> (r: bool)
    ensures
        r == xid_continue(c),
        c <= '\u{7f}' ==> r == is_ascii_word_char(c),
{
    c.is_xid_continue()
}

/// The words that no identifier may be.
pub open spec fn is_reserved_word(s: Seq<char>) -> bool {
    ||| s == "break"@
    ||| s == "case"@
    ||| s == "catch"@
    ||| s == "class"@
    ||| s == "const"@
    ||| s == "continue"@
    ||| s == "debugger"@
    ||| s == "default"@
    ||| s == "delete"@
    ||| s == "do"@
    ||| s == "else"@
    ||| s == "enum"@
    ||| s == "export"@
    ||| s == "extends"@
    ||| s == "false"@
    ||| s == "finally"@
    ||| s == "for"@
    ||| s == "function"@
    ||| s == "if"@
    ||| s == "import"@
    ||| s == "in"@
    ||| s == "instanceof"@
    ||| s == "new"@
    ||| s == "null"@
    ||| s == "package"@
    ||| s == "return"@
    ||| s == "super"@
    ||| s == "switch"@
    ||| s == "this"@
    ||| s == "throw"@
    ||| s == "true"@
    ||| s == "try"@
    ||| s == "typeof"@
    ||| s == "var"@
    ||| s == "void"@
    ||| s == "while"@
    ||| s == "with"@
}

/// Calls `<&str as swc_ecma_ast::IdentExt>::is_reserved`, which looks the word up in a fixed list.
#[verifier::external_body]
pub(crate) fn is_reserved(s: &str) -> (r: bool)
    ensures
        r == is_reserved_word(s@),
{
    s.is_reserved()
}

}
