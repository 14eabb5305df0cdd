//! The syntax tree that the rest of the crate works on, and the mathematical view of it.

use crate::outside::{ast_leaf_kind, contents};
use swc_common::Span;
use swc_ecma_ast::AssignOp as AstAssignOp;
use swc_ecma_ast::Expr as AstExpr;
use swc_ecma_ast::PatOrExpr as AstPatOrExpr;
use swc_ecma_ast::TsTypeParamInstantiation as AstTypeArgs;
use vstd::prelude::*;

verus! {

/// A prefix operator.
#[derive(Clone, Copy, Debug, PartialEq, Eq, Structural)]
pub enum UnaryOp {
    Minus,
    Plus,
    Bang,
    Tilde,
    TypeOf,
    Void,
    Delete,
}

/// An infix operator.
#[derive(Clone, Copy, Debug, PartialEq, Eq, Structural)]
pub enum BinaryOp {
    EqEq,
    NotEq,
    EqEqEq,
    NotEqEq,
    Lt,
    LtEq,
    Gt,
    GtEq,
    LShift,
    RShift,
    ZeroFillRShift,
    Add,
    Sub,
    Mul,
    Div,
    Mod,
    BitOr,
    BitXor,
    BitAnd,
    LogicalOr,
    LogicalAnd,
    In,
    InstanceOf,
    Exp,
    NullishCoalescing,
}

impl UnaryOp {
    /// The operator as it is written.
    pub open spec fn text(self) -> Seq<char> {
        match self {
            UnaryOp::Minus => "-"@,
            UnaryOp::Plus => "+"@,
            UnaryOp::Bang => "!"@,
            UnaryOp::Tilde => "~"@,
            UnaryOp::TypeOf => "typeof"@,
            UnaryOp::Void => "void"@,
            UnaryOp::Delete => "delete"@,
        }
    }

    /// The operator as it is written.
    pub fn as_str(self) -> (r: &'static str)
        ensures
            r@ == self.text(),
    {
        match self {
            UnaryOp::Minus => "-",
            UnaryOp::Plus => "+",
            UnaryOp::Bang => "!",
            UnaryOp::Tilde => "~",
            UnaryOp::TypeOf => "typeof",
            UnaryOp::Void => "void",
            UnaryOp::Delete => "delete",
        }
    }
}

impl BinaryOp {
    /// The operator as it is written.
    pub open spec fn text(self) -> Seq<char> {
        match self {
            BinaryOp::EqEq => "=="@,
            BinaryOp::NotEq => "!="@,
            BinaryOp::EqEqEq => "==="@,
            BinaryOp::NotEqEq => "!=="@,
            BinaryOp::Lt => "<"@,
            BinaryOp::LtEq => "<="@,
            BinaryOp::Gt => ">"@,
            BinaryOp::GtEq => ">="@,
            BinaryOp::LShift => "<<"@,
            BinaryOp::RShift => ">>"@,
            BinaryOp::ZeroFillRShift => ">>>"@,
            BinaryOp::Add => "+"@,
            BinaryOp::Sub => "-"@,
            BinaryOp::Mul => "*"@,
            BinaryOp::Div => "/"@,
            BinaryOp::Mod => "%"@,
            BinaryOp::BitOr => "|"@,
            BinaryOp::BitXor => "^"@,
            BinaryOp::BitAnd => "&"@,
            BinaryOp::LogicalOr => "||"@,
            BinaryOp::LogicalAnd => "&&"@,
            BinaryOp::In => "in"@,
            BinaryOp::InstanceOf => "instanceof"@,
            BinaryOp::Exp => "**"@,
            BinaryOp::NullishCoalescing => "??"@,
        }
    }

    /// The operator as it is written.
    pub fn as_str(self) -> (r: &'static str)
        ensures
            r@ == self.text(),
    {
        match self {
            BinaryOp::EqEq => "==",
            BinaryOp::NotEq => "!=",
            BinaryOp::EqEqEq => "===",
            BinaryOp::NotEqEq => "!==",
            BinaryOp::Lt => "<",
            BinaryOp::LtEq => "<=",
            BinaryOp::Gt => ">",
            BinaryOp::GtEq => ">=",
            BinaryOp::LShift => "<<",
            BinaryOp::RShift => ">>",
            BinaryOp::ZeroFillRShift => ">>>",
            BinaryOp::Add => "+",
            BinaryOp::Sub => "-",
            BinaryOp::Mul => "*",
            BinaryOp::Div => "/",
            BinaryOp::Mod => "%",
            BinaryOp::BitOr => "|",
            BinaryOp::BitXor => "^",
            BinaryOp::BitAnd => "&",
            BinaryOp::LogicalOr => "||",
            BinaryOp::LogicalAnd => "&&",
            BinaryOp::In => "in",
            BinaryOp::InstanceOf => "instanceof",
            BinaryOp::Exp => "**",
            BinaryOp::NullishCoalescing => "??",
        }
    }
}

/// An expression.
///
/// The kinds of expression that are taken apart somewhere in this crate are variants of their
/// own; every other kind is a [`Leaf`].
pub enum Expr {
    Unary(UnaryExpr),
    Bin(BinExpr),
    Assign(AssignExpr),
    Member(MemberExpr),
    Cond(CondExpr),
    Call(CallExpr),
    Sequence(SeqExpr),
    Ident(Ident),
    Leaf(Leaf),
}

/// `op arg`
pub struct UnaryExpr {
    pub span: Span,
    pub op: UnaryOp,
    pub arg: Box<Expr>,
}

/// `left op right`
pub struct BinExpr {
    pub span: Span,
    pub op: BinaryOp,
    pub left: Box<Expr>,
    pub right: Box<Expr>,
}

/// `left op right` where `op` assigns. The operator and the target are carried as they are.
pub struct AssignExpr {
    pub span: Span,
    pub op: AstAssignOp,
    pub left: AstPatOrExpr,
    pub right: Box<Expr>,
}

/// `obj.prop`, or `obj[prop]` where `computed` is set.
pub struct MemberExpr {
    pub span: Span,
    pub obj: ExprOrSuper,
    pub prop: Box<Expr>,
    pub computed: bool,
}

/// `test ? cons : alt`
pub struct CondExpr {
    pub span: Span,
    pub test: Box<Expr>,
    pub cons: Box<Expr>,
    pub alt: Box<Expr>,
}

/// `callee(args)`
pub struct CallExpr {
    pub span: Span,
    pub callee: ExprOrSuper,
    pub args: Vec<ExprOrSpread>,
    pub type_args: Option<AstTypeArgs>,
}

/// `exprs[0], exprs[1], ..`
pub struct SeqExpr {
    pub span: Span,
    pub exprs: Vec<Expr>,
}

/// An identifier.
pub struct Ident {
    pub span: Span,
    pub sym: String,
    pub optional: bool,
}

/// What stands in front of a member access or a call.
pub enum ExprOrSuper {
    Super(Span),
    Expr(Box<Expr>),
}

/// An argument of a call; `spread` holds the place of the dots in `...expr`.
pub struct ExprOrSpread {
    pub spread: Option<Span>,
    pub expr: Box<Expr>,
}

/// An expression that nothing in this crate looks into, beyond what [`LeafKind`] tells.
///
/// The node is carried as it is. Its invariant is that the node is of one of the kinds that
/// [`Expr`] has no variant for, and that `kind` tells the truth about it.
pub struct Leaf {
    kind: LeafKind,
    node: AstExpr,
}

/// What is known of the node in a [`Leaf`].
pub enum LeafKind {
    /// `++v`, `--v`, `v++` or `v--`
    Update,
    /// `new f(..)`
    New,
    /// A function expression, arrow functions excluded, and whether calling it does nothing.
    Fn { is_pure_callee: bool },
    /// A string literal with its value.
    Str(String),
    /// `null`
    Null,
    /// Any other literal.
    Lit,
    /// Any other expression without a variant in [`Expr`], and whether evaluating it may do more
    /// than give a value.
    Other { has_effects: bool },
}

/// The view of a [`LeafKind`].
pub enum LeafKindView {
    Update,
    New,
    Fn { is_pure_callee: bool },
    Str(Seq<char>),
    Null,
    Lit,
    Other { has_effects: bool },
}

/// The view of an [`Expr`].
#[allow(inconsistent_fields)]
pub enum ExprView {
    Unary { span: Span, op: UnaryOp, arg: Box<ExprView> },
    Bin { span: Span, op: BinaryOp, left: Box<ExprView>, right: Box<ExprView> },
    Assign { span: Span, op: AstAssignOp, left: AstPatOrExpr, right: Box<ExprView> },
    Member { span: Span, obj: ExprOrSuperView, prop: Box<ExprView>, computed: bool },
    Cond { span: Span, test: Box<ExprView>, cons: Box<ExprView>, alt: Box<ExprView> },
    Call {
        span: Span,
        callee: ExprOrSuperView,
        args: Seq<ExprOrSpreadView>,
        type_args: Option<AstTypeArgs>,
    },
    Sequence { span: Span, exprs: Seq<ExprView> },
    Ident { span: Span, sym: Seq<char>, optional: bool },
    Leaf { kind: LeafKindView, node: AstExpr },
}

/// The view of an [`ExprOrSuper`].
pub enum ExprOrSuperView {
    Super(Span),
    Expr(Box<ExprView>),
}

/// The view of an [`ExprOrSpread`].
pub struct ExprOrSpreadView {
    pub spread: Option<Span>,
    pub expr: ExprView,
}

impl LeafKind {
    pub open spec fn view(self) -> LeafKindView {
        match self {
            LeafKind::Update => LeafKindView::Update,
            LeafKind::New => LeafKindView::New,
            LeafKind::Fn { is_pure_callee } => LeafKindView::Fn { is_pure_callee },
            LeafKind::Str(value) => LeafKindView::Str(value@),
            LeafKind::Null => LeafKindView::Null,
            LeafKind::Lit => LeafKindView::Lit,
            LeafKind::Other { has_effects } => LeafKindView::Other { has_effects },
        }
    }
}

impl Leaf {
    #[verifier::type_invariant]
    closed spec fn inv(self) -> bool {
        contents(self.node) == self.view()
    }

    /// What is known of the node.
    pub closed spec fn kind_view(self) -> LeafKindView {
        self.kind.view()
    }

    /// The node itself.
    pub closed spec fn node_view(self) -> AstExpr {
        self.node
    }

    /// The view of a leaf among the views of expressions.
    pub open spec fn view(self) -> ExprView {
        ExprView::Leaf { kind: self.kind_view(), node: self.node_view() }
    }

    /// Makes a leaf of `node`, or gives `node` back where [`Expr`] has a variant for its kind.
    pub fn new(node: AstExpr) -> (r: Result<Leaf, AstExpr>)
        ensures
            contents(node) is Leaf ==> r is Ok && r->Ok_0@ == contents(node),
            !(contents(node) is Leaf) ==> r == Err::<Leaf, AstExpr>(node),
    {
        match ast_leaf_kind(&node) {
            Some(kind) => Ok(Leaf { kind, node }),
            None => Err(node),
        }
    }

    /// What is known of the node.
    pub fn kind(&self) -> (r: &LeafKind)
        ensures
            r.view() == self.kind_view(),
    {
        &self.kind
    }

    /// The node itself.
    pub fn node(&self) -> (r: &AstExpr)
        ensures
            *r == self.node_view(),
            contents(*r) == self@,
    {
        proof {
            use_type_invariant(self);
        }
        &self.node
    }
}

impl Ident {
    pub open spec fn view(self) -> ExprView {
        ExprView::Ident { span: self.span, sym: self.sym@, optional: self.optional }
    }
}

impl ExprOrSuper {
    pub open spec fn view(self) -> ExprOrSuperView
        decreases self,
    {
        match self {
            ExprOrSuper::Super(span) => ExprOrSuperView::Super(span),
            ExprOrSuper::Expr(e) => ExprOrSuperView::Expr(Box::new(e.view())),
        }
    }
}

impl Expr {
    pub open spec fn view(self) -> ExprView
        decreases self,
    {
        match self {
            Expr::Unary(e) => ExprView::Unary {
                span: e.span,
                op: e.op,
                arg: Box::new(e.arg.view()),
            },
            Expr::Bin(e) => ExprView::Bin {
                span: e.span,
                op: e.op,
                left: Box::new(e.left.view()),
                right: Box::new(e.right.view()),
            },
            Expr::Assign(e) => ExprView::Assign {
                span: e.span,
                op: e.op,
                left: e.left,
                right: Box::new(e.right.view()),
            },
            Expr::Member(e) => ExprView::Member {
                span: e.span,
                obj: e.obj.view(),
                prop: Box::new(e.prop.view()),
                computed: e.computed,
            },
            Expr::Cond(e) => ExprView::Cond {
                span: e.span,
                test: Box::new(e.test.view()),
                cons: Box::new(e.cons.view()),
                alt: Box::new(e.alt.view()),
            },
            Expr::Call(e) => ExprView::Call {
                span: e.span,
                callee: e.callee.view(),
                args: Seq::new(
                    e.args@.len(),
                    |i: int|
                        if 0 <= i < e.args@.len() {
                            ExprOrSpreadView {
                                spread: e.args@[i].spread,
                                expr: e.args@[i].expr.view(),
                            }
                        } else {
                            arbitrary()
                        },
                ),
                type_args: e.type_args,
            },
            Expr::Sequence(e) => ExprView::Sequence {
                span: e.span,
                exprs: Seq::new(
                    e.exprs@.len(),
                    |i: int|
                        if 0 <= i < e.exprs@.len() {
                            e.exprs@[i].view()
                        } else {
                            arbitrary()
                        },
                ),
            },
            Expr::Ident(e) => e.view(),
            Expr::Leaf(e) => e.view(),
        }
    }
}

}
