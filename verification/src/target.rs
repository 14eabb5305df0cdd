//! Targets of assignments.

use crate::syntax::{Expr, ExprView, Ident};
use swc_ecma_ast::Pat as AstPat;
use swc_ecma_ast::TsTypeAnn as AstTypeAnn;
use vstd::prelude::*;

verus! {

/// The target of an assignment, parsed as an expression or as a pattern.
pub enum PatOrExpr {
    Expr(Box<Expr>),
    Pat(Box<Pat>),
}

/// A pattern.
pub enum Pat {
    Ident(BindingIdent),
    Expr(Box<Expr>),
    /// Any other pattern, carried as it is.
    Other(AstPat),
}

/// An identifier used as a pattern.
pub struct BindingIdent {
    pub id: Ident,
    pub type_ann: Option<AstTypeAnn>,
}

/// The view of a [`PatOrExpr`].
pub enum PatOrExprView {
    Expr(ExprView),
    Pat(PatView),
}

/// The view of a [`Pat`].
pub enum PatView {
    Ident { id: ExprView, type_ann: Option<AstTypeAnn> },
    Expr(ExprView),
    Other(AstPat),
}

impl Pat {
    pub open spec fn view(self) -> PatView {
        match self {
            Pat::Ident(p) => PatView::Ident { id: p.id@, type_ann: p.type_ann },
            Pat::Expr(e) => PatView::Expr(e@),
            Pat::Other(p) => PatView::Other(p),
        }
    }
}

impl PatOrExpr {
    pub open spec fn view(self) -> PatOrExprView {
        match self {
            PatOrExpr::Expr(e) => PatOrExprView::Expr(e@),
            PatOrExpr::Pat(p) => PatOrExprView::Pat(p@),
        }
    }
}

/// The identifier that the target consists of, if it is one.
pub open spec fn lhs_ident(e: PatOrExprView) -> Option<ExprView> {
    match e {
        PatOrExprView::Expr(e) if e is Ident => Some(e),
        PatOrExprView::Pat(PatView::Ident { id, .. }) => Some(id),
        PatOrExprView::Pat(PatView::Expr(e)) if e is Ident => Some(e),
        _ => None,
    }
}

/// The target `e` with the identifier that it consists of replaced by `id`.
pub open spec fn with_lhs_ident(e: PatOrExprView, id: ExprView) -> PatOrExprView {
    match e {
        PatOrExprView::Expr(_) => PatOrExprView::Expr(id),
        PatOrExprView::Pat(PatView::Ident { type_ann, .. }) => PatOrExprView::Pat(
            PatView::Ident { id, type_ann },
        ),
        PatOrExprView::Pat(_) => PatOrExprView::Pat(PatView::Expr(id)),
    }
}

/// The identifier that the target `e` consists of, if it is one.
pub fn get_lhs_ident(e: &PatOrExpr) -> (r: Option<&Ident>)
    ensures
        r is Some == lhs_ident(e@) is Some,
        r is Some ==> r->0@ == lhs_ident(e@)->0,
{
    match e {
        PatOrExpr::Expr(v) => match &**v {
            Expr::Ident(i) => Some(i),
            _ => None,
        },
        PatOrExpr::Pat(v) => match &**v {
            Pat::Ident(i) => Some(&i.id),
            Pat::Expr(v) => match &**v {
                Expr::Ident(i) => Some(i),
                _ => None,
            },
            _ => None,
        },
    }
}

/// The identifier that the target `e` consists of, if it is one, to be changed in place.
pub fn get_lhs_ident_mut(e: &mut PatOrExpr) -> (r: Option<&mut Ident>)
    ensures
        r is Some == lhs_ident(old(e)@) is Some,
        r is None ==> *final(e) == *old(e),
        r matches Some(ident) ==> ident@ == lhs_ident(old(e)@)->0 && final(e)@ == with_lhs_ident(
            old(e)@,
            final(ident)@,
        ),
{
    if get_lhs_ident(e).is_none() {
        return None;
    }
    match e {
        PatOrExpr::Expr(v) => match &mut **v {
            Expr::Ident(i) => Some(i),
            _ => None,
        },
        PatOrExpr::Pat(v) => match &mut **v {
            Pat::Ident(i) => Some(&mut i.id),
            Pat::Expr(v) => match &mut **v {
                Expr::Ident(i) => Some(i),
                _ => None,
            },
            _ => None,
        },
    }
}

}
