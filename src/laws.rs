//! What holds between building an adapter, rendering it and iterating it.
use vstd::prelude::*;

use crate::adapter::{lemma_rendered_copies, rendered, repeated, texts, FmtIter};
use crate::source::{copies, RepeatN, SliceIter};
use crate::text::Textual;

verus! {

/// An adapter built from a slice renders as the texts of the slice's
/// elements, in their order, with no separator.
pub proof fn lemma_slice_renders_elements<'a, T: Textual>(
    items: &'a [T],
    a: FmtIter<SliceIter<'a, T>>,
)
    requires
        a@ == items@.map_values(|x: T| &x),
    ensures
        a.text() == items@.map_values(|x: T| x.text()).flatten(),
{
    assert(texts(a@) =~= items@.map_values(|x: T| x.text()));
}

/// Repeating a value zero times renders as the empty text.
pub proof fn lemma_repeat_none<T: Textual + Copy>(v: T, a: FmtIter<RepeatN<T>>)
    requires
        a@ == copies(v, 0),
    ensures
        a.text() == Seq::<char>::empty(),
{
    lemma_rendered_copies(v, 0);
}

/// Repeating a value `n` times renders as `n` copies of its text.
pub proof fn lemma_repeat_renders_copies<T: Textual + Copy>(
    v: T,
    n: nat,
    a: FmtIter<RepeatN<T>>,
)
    requires
        a@ == copies(v, n),
    ensures
        a.text() == repeated(v.text(), n),
        a.text().len() == n * v.text().len(),
{
    lemma_rendered_copies(v, n);
    lemma_repeated_len(v.text(), n);
}

/// `n` copies of a text are `n` times as long as it.
pub proof fn lemma_repeated_len(s: Seq<char>, n: nat)
    ensures
        repeated(s, n).len() == n * s.len(),
    decreases n,
{
    if n > 0 {
        lemma_repeated_len(s, (n - 1) as nat);
        assert(repeated(s, n).len() == (n - 1) * s.len() + s.len());
        assert((n - 1) * s.len() + s.len() == n * s.len()) by (nonlinear_arith);
    }
}

} // verus!
