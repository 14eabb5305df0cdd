//! Which strings are identifiers.

use crate::outside::{
    is_ascii_letter, is_ascii_word_char, is_reserved, is_reserved_word, is_xid_continue, is_xid_start, xid_continue, xid_start,
};
use vstd::prelude::*;
use vstd::utf8::is_ascii_chars;

verus! {

/// Whether an identifier can start with `c`.
pub open spec fn starts_identifier(c: char) -> bool {
    if c <= '\u{7f}' {
        is_ascii_letter(c)
    } else {
        xid_start(c)
    }
}

/// Whether `c` can stand in an identifier. U+1D4B6 is left out although it counts as a letter.
pub open spec fn continues_identifier(c: char) -> bool {
    if c <= '\u{7f}' {
        is_ascii_word_char(c)
    } else {
        xid_continue(c) && c != '\u{1d4b6}'
    }
}

/// Whether `s` is an identifier.
pub open spec fn valid_identifier(s: Seq<char>) -> bool {
    &&& s.len() > 0
    &&& starts_identifier(s[0])
    &&& forall|i: int| 0 <= i < s.len() ==> continues_identifier(#[trigger] s[i])
    &&& !is_reserved_word(s)
}

/// Whether `s` is an identifier, and where `ascii_only` is set, one in ASCII.
pub fn is_valid_identifier(s: &str, ascii_only: bool) -> (r: bool)
    ensures
        r == (valid_identifier(s@) && (ascii_only ==> is_ascii_chars(s@))),
        r ==> s@.len() > 0 && xid_start(s@[0]) && !is_reserved_word(s@),
        r ==> forall|i: int| 0 <= i < s@.len() ==> xid_continue(#[trigger] s@[i]),
        r && ascii_only ==> forall|i: int| 0 <= i < s@.len() ==> #[trigger] s@[i] <= '\u{7f}',
{
    if ascii_only && !s.is_ascii() {
        return false;
    }
    let mut is_first = true;
    for c in it: s.chars()
        invariant
            it.seq() == s@,
            is_first == (it.index() == 0),
            it.index() > 0 ==> starts_identifier(s@[0]) && xid_start(s@[0]),
            forall|i: int| 0 <= i < it.index() ==> xid_continue(#[trigger] s@[i]),
            forall|i: int| 0 <= i < it.index() ==> continues_identifier(#[trigger] s@[i]),
    {
        if is_first && !is_xid_start(c) {
            return false;
        }
        if !is_xid_continue(c) || c == '\u{1d4b6}' {
            return false;
        }
        is_first = false;
    }
    !is_first && !is_reserved(s)
}

}
