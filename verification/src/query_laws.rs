//! What is accepted, and what is found, by the questions about expressions, statements, strings and
//! targets.

use crate::effects::has_effects;
use crate::ident::valid_identifier;
use crate::outside::{is_reserved_word, xid_continue, xid_start};
use crate::stmt::{directive, StmtView};
use crate::syntax::{ExprView, LeafKindView, UnaryOp};
use crate::target::{lhs_ident, with_lhs_ident, PatOrExprView, PatView};
use crate::undefined::{pure_undefined, pure_undefined_or_null};
use vstd::prelude::*;

verus! {

/// Wherever `undefined` and `void` give undefined, `void` does what its operand does, and what has
/// no side effects leaves the state alone, an expression that is accepted as undefined gives
/// undefined and leaves the state alone.
pub proof fn law_accepted_gives_undefined<S, V>(
    eval: spec_fn(ExprView, S) -> (S, V),
    undefined: V,
    e: ExprView,
    s: S,
)
    requires
        forall|x: ExprView, t: S|
            (x matches ExprView::Ident { sym, .. } && sym == "undefined"@) ==> #[trigger] eval(x, t)
                == (t, undefined),
        forall|x: ExprView, t: S|
            x matches ExprView::Unary { op: UnaryOp::Void, arg, .. } ==> #[trigger] eval(x, t) == (
            eval(*arg, t).0,
            undefined,
        ),
        forall|x: ExprView, t: S| !has_effects(x) ==> (#[trigger] eval(x, t)).0 == t,
        pure_undefined(e),
    ensures
        eval(e, s) == (s, undefined),
{
}

/// Accepted as undefined are the identifier of that name, and `void` before an expression without
/// side effects; no other prefix operator and no other form of expression.
pub proof fn law_accepted_as_undefined(e: ExprView)
    ensures
        e matches ExprView::Ident { sym, .. } ==> pure_undefined(e) == (sym == "undefined"@),
        e matches ExprView::Unary { op: UnaryOp::Void, arg, .. } ==> pure_undefined(e)
            == !has_effects(*arg),
        e matches ExprView::Unary { op, .. } && op != UnaryOp::Void ==> !pure_undefined(e),
        !(e is Ident) && !(e is Unary) ==> !pure_undefined(e),
{
}

/// Beside what is accepted as undefined, `null` is accepted where both are asked for, and nothing
/// else: no other leaf and no other form of expression.
pub proof fn law_accepted_as_undefined_or_null(e: ExprView)
    ensures
        e matches ExprView::Leaf { kind, .. } ==> pure_undefined_or_null(e) == (kind is Null),
        !(e is Leaf) ==> pure_undefined_or_null(e) == pure_undefined(e),
        e is Unary && pure_undefined_or_null(e) ==> e->Unary_op == UnaryOp::Void && !has_effects(
            *e->arg,
        ),
        e is Ident && pure_undefined_or_null(e) ==> e->sym == "undefined"@,
{
}

/// An identifier starts with a letter, goes on with letters, digits and `_`, and is no reserved
/// word; beyond ASCII the Unicode tables tell, with U+1D4B6 left out.
pub proof fn law_characters_of_identifiers(s: Seq<char>)
    ensures
        valid_identifier(s) ==> s.len() > 0 && !is_reserved_word(s),
        valid_identifier(s) && s[0] <= '\u{7f}' ==> ('a' <= s[0] <= 'z' || 'A' <= s[0] <= 'Z'),
        valid_identifier(s) && s[0] > '\u{7f}' ==> xid_start(s[0]),
        valid_identifier(s) ==> forall|i: int|
            0 <= i < s.len() && #[trigger] s[i] <= '\u{7f}' ==> ('a' <= s[i] <= 'z' || 'A' <= s[i]
                <= 'Z' || '0' <= s[i] <= '9' || s[i] == '_'),
        valid_identifier(s) ==> forall|i: int|
            0 <= i < s.len() && #[trigger] s[i] > '\u{7f}' ==> xid_continue(s[i]) && s[i]
                != '\u{1d4b6}',
{
}

/// Every string of such characters that is no reserved word is an identifier.
pub proof fn law_such_strings_are_identifiers(s: Seq<char>)
    requires
        s.len() > 0,
        !is_reserved_word(s),
        s[0] <= '\u{7f}' ==> ('a' <= s[0] <= 'z' || 'A' <= s[0] <= 'Z'),
        s[0] > '\u{7f}' ==> xid_start(s[0]),
        forall|i: int|
            0 <= i < s.len() && #[trigger] s[i] <= '\u{7f}' ==> ('a' <= s[i] <= 'z' || 'A' <= s[i]
                <= 'Z' || '0' <= s[i] <= '9' || s[i] == '_'),
        forall|i: int|
            0 <= i < s.len() && #[trigger] s[i] > '\u{7f}' ==> xid_continue(s[i]) && s[i]
                != '\u{1d4b6}',
    ensures
        valid_identifier(s),
{
}

/// Each start of an identifier is an identifier, unless it is a reserved word.
pub proof fn law_start_of_identifier(s: Seq<char>, n: int)
    requires
        valid_identifier(s),
        0 < n <= s.len(),
    ensures
        valid_identifier(s.take(n)) == !is_reserved_word(s.take(n)),
{
}

/// The characters of one identifier can follow those of another, unless a reserved word comes out.
pub proof fn law_joined_identifiers(s: Seq<char>, t: Seq<char>)
    requires
        valid_identifier(s),
        valid_identifier(t),
    ensures
        valid_identifier(s + t) == !is_reserved_word(s + t),
{
}

/// A target has an identifier exactly where the whole of it is one, as an expression or as a
/// pattern; a member, computed or not, has none.
pub proof fn law_identifier_is_the_whole_target(e: PatOrExprView)
    ensures
        lhs_ident(e) matches Some(id) ==> ({
            ||| e == PatOrExprView::Expr(id) && id is Ident
            ||| e == PatOrExprView::Pat(PatView::Expr(id)) && id is Ident
            ||| e matches PatOrExprView::Pat(PatView::Ident { id: whole, .. }) && whole == id
        }),
        e matches PatOrExprView::Expr(x) ==> (lhs_ident(e) is Some) == (x is Ident),
        e matches PatOrExprView::Pat(PatView::Expr(x)) ==> (lhs_ident(e) is Some) == (x is Ident),
        e matches PatOrExprView::Pat(PatView::Ident { .. }) ==> lhs_ident(e) is Some,
        e matches PatOrExprView::Pat(PatView::Other(_)) ==> lhs_ident(e) is None,
{
}

/// Writing an identifier into a target keeps whether it is an expression or a pattern, and the type
/// of a pattern; of what was there, only the identifier goes.
pub proof fn law_written_target(e: PatOrExprView, id: ExprView)
    requires
        lhs_ident(e) is Some,
    ensures
        e is Expr ==> with_lhs_ident(e, id) == PatOrExprView::Expr(id),
        e matches PatOrExprView::Pat(PatView::Expr(_)) ==> with_lhs_ident(e, id)
            == PatOrExprView::Pat(PatView::Expr(id)),
        e matches PatOrExprView::Pat(PatView::Ident { type_ann, .. }) ==> with_lhs_ident(e, id)
            == PatOrExprView::Pat((PatView::Ident { id, type_ann })),
{
}

/// A directive is a statement that consists of a string literal, and starts with `use` and a space.
pub proof fn law_directives(s: StmtView)
    ensures
        directive(s) ==> s is Expr && (s->expr matches ExprView::Leaf {
            kind: LeafKindView::Str(_),
            ..
        }),
        s matches StmtView::Expr { expr: ExprView::Leaf { kind: LeafKindView::Str(text), .. } }
            ==> directive(s) == (text.len() >= 4 && text[0] == 'u' && text[1] == 's' && text[2]
            == 'e' && text[3] == ' '),
{
    reveal_strlit("use ");
    if let StmtView::Expr { expr: ExprView::Leaf { kind: LeafKindView::Str(text), .. } } = s {
        if text.len() >= 4 {
            let start = text.take(4);
            assert(start[0] == text[0] && start[1] == text[1] && start[2] == text[2] && start[3]
                == text[3]);
            if text[0] == 'u' && text[1] == 's' && text[2] == 'e' && text[3] == ' ' {
                assert(start =~= "use "@);
            }
        }
    }
}

}
