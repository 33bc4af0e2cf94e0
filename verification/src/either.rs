//! A value of one of two kinds, as scripts hand them over: one string, or
//! a list of strings.

use vstd::prelude::*;
use crate::text::{extend_texts, push_text, views};

verus! {

/// One of two.
#[derive(Debug, Clone, PartialEq, Eq)]
pub enum Either<A, B> {
    First(A),
    Second(B),
}

/// The strings that a value stands for: the one, or those of the list.
pub open spec fn texts_of(value: Either<String, Vec<String>>) -> Seq<Seq<char>> {
    match value {
        Either::First(s) => seq![s@],
        Either::Second(v) => views(v@),
    }
}

/// Puts the strings that `value` stands for at the end of `list`.
pub fn extend_with(list: &mut Vec<String>, value: Either<String, Vec<String>>)
    ensures
        views(final(list)@) == views(old(list)@) + texts_of(value),
{
    match value {
        Either::First(s) => {
            push_text(list, s);
            assert(views(list@) =~= views(old(list)@) + texts_of(value));
        },
        Either::Second(v) => {
            extend_texts(list, &v);
        },
    }
}

} // verus!
