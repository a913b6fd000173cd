//! The adapter that renders every item of a source, back to back.
use vstd::prelude::*;

use crate::source::{copies, RepeatN, SliceIter, Source};
use crate::text::Textual;

verus! {

/// The text of each item, in order.
pub open spec fn texts<T: Textual>(items: Seq<T>) -> Seq<Seq<char>> {
    items.map_values(|x: T| x.text())
}

/// The texts of all items joined with no separator.
pub open spec fn rendered<T: Textual>(items: Seq<T>) -> Seq<char> {
    texts(items).flatten()
}

/// `s` written `n` times in a row.
pub open spec fn repeated(s: Seq<char>, n: nat) -> Seq<char>
    decreases n,
{
    if n == 0 {
        Seq::empty()
    } else {
        repeated(s, (n - 1) as nat) + s
    }
}

/// Rendering `n` copies of one value writes its text `n` times.
pub proof fn lemma_rendered_copies<T: Textual>(v: T, n: nat)
    ensures
        rendered(copies(v, n)) == repeated(v.text(), n),
    decreases n,
{
    if n > 0 {
        lemma_rendered_copies(v, (n - 1) as nat);
        let m = (n - 1) as nat;
        assert(copies(v, n) =~= copies(v, m).push(v));
        assert(texts(copies(v, n)) =~= texts(copies(v, m)).push(v.text()));
        texts(copies(v, m)).lemma_flatten_push(v.text());
    } else {
        assert(texts(copies(v, n)) =~= Seq::<Seq<char>>::empty());
    }
}

/// Wraps a restartable source so that it can be rendered as the
/// concatenation of its items' texts, and iterated as the source itself.
///
/// Its view is the sequence of items the source has still to yield.
#[derive(Clone, Copy, Debug)]
pub struct FmtIter<Inner> {
    inner: Inner,
}

impl<Inner: Source> View for FmtIter<Inner> {
    type V = Seq<Inner::Item>;

    closed spec fn view(&self) -> Seq<Inner::Item> {
        self.inner.rest()
    }
}

impl<Inner: Source> FmtIter<Inner> {
    /// Wraps `inner` as it is.
    pub fn new(inner: Inner) -> (r: Self)
        ensures
            r@ == inner.rest(),
    {
        FmtIter { inner }
    }

    /// The wrapped source.
    pub fn as_inner(&self) -> (r: &Inner)
        ensures
            r.rest() == self@,
    {
        &self.inner
    }

    /// Unwraps the source.
    pub fn into_inner(self) -> (r: Inner)
        ensures
            r.rest() == self@,
    {
        self.inner
    }

    /// Pulls the next item from the wrapped source.
    pub fn next(&mut self) -> (r: Option<Inner::Item>)
        ensures
            old(self)@.len() == 0 ==> r is None && final(self)@ == old(self)@,
            old(self)@.len() > 0 ==> r == Some(old(self)@[0]) && final(self)@ == old(
                self,
            )@.drop_first(),
    {
        self.inner.next()
    }

    /// Bounds on the number of items still to come: both are exact.
    pub fn size_hint(&self) -> (r: (usize, Option<usize>))
        ensures
            r.0 == self@.len(),
            r.1 == Some(self@.len() as usize),
    {
        let n = self.inner.len();
        (n, Some(n))
    }

    /// The number of items still to come.
    pub fn len(&self) -> (n: usize)
        ensures
            n == self@.len(),
    {
        self.inner.len()
    }

    /// Drains the adapter, collecting the items in the order they come.
    pub fn collect(self) -> (r: Vec<Inner::Item>)
        ensures
            r@ == self@,
    {
        let ghost all = self@;
        let mut it = self.inner;
        let mut r: Vec<Inner::Item> = Vec::new();
        loop
            invariant
                all == self@,
                r@ + it.rest() == all,
            decreases it.rest().len(),
        {
            match it.next() {
                Some(item) => {
                    r.push(item);
                    assert(r@ + it.rest() =~= all);
                },
                None => {
                    assert(r@ =~= all);
                    return r;
                },
            }
        }
    }
}

impl<Inner: Source> FmtIter<Inner> where Inner::Item: Textual {
    /// The text that rendering the adapter produces.
    pub open spec fn text(&self) -> Seq<char> {
        rendered(self@)
    }

    /// Appends the text of every remaining item, in order, with no
    /// separator. The adapter's own position is left untouched.
    pub fn write_to(&self, out: &mut String)
        ensures
            final(out)@ == old(out)@ + self.text(),
    {
        let ghost all = self@;
        let mut it = self.inner.fork();
        let ghost mut k: int = 0;
        loop
            invariant
                all == self@,
                0 <= k <= all.len(),
                it.rest() == all.skip(k),
                out@ == old(out)@ + rendered(all.take(k)),
            decreases it.rest().len(),
        {
            match it.next() {
                Some(item) => {
                    item.write_text(out);
                    proof {
                        assert(all.take(k + 1) =~= all.take(k).push(item));
                        assert(texts(all.take(k + 1)) =~= texts(all.take(k)).push(item.text()));
                        texts(all.take(k)).lemma_flatten_push(item.text());
                        k = k + 1;
                        assert(it.rest() =~= all.skip(k));
                    }
                },
                None => {
                    assert(all.take(k) =~= all);
                    return;
                },
            }
        }
    }

    /// The text of every remaining item, in order, with no separator.
    pub fn to_string(&self) -> (r: String)
        ensures
            r@ == self.text(),
    {
        let mut out = String::new();
        self.write_to(&mut out);
        assert(out@ =~= self.text());
        out
    }
}

/// An adapter is itself a source: it yields what it wraps, in the same order.
impl<Inner: Source> Source for FmtIter<Inner> {
    type Item = Inner::Item;

    closed spec fn rest(&self) -> Seq<Inner::Item> {
        self.inner.rest()
    }

    fn next(&mut self) -> (r: Option<Inner::Item>) {
        self.inner.next()
    }

    fn len(&self) -> (n: usize) {
        self.inner.len()
    }

    fn fork(&self) -> (r: Self) {
        FmtIter { inner: self.inner.fork() }
    }
}

/// Iterating an adapter yields what iterating the wrapped source yields: the
/// same items, in the same order, and so the same exact count.
pub proof fn lemma_adapter_yields_source<Inner: Source>(inner: Inner, a: FmtIter<Inner>)
    requires
        a@ == inner.rest(),
    ensures
        a.rest() == inner.rest(),
        a.rest().len() == inner.rest().len(),
{
}

impl<'a, T> FmtIter<SliceIter<'a, T>> {
    /// An adapter over the elements of `items`, first to last.
    pub fn from(items: &'a [T]) -> (r: Self)
        ensures
            r@ == items@.map_values(|x: T| &x),
    {
        FmtIter::new(SliceIter::new(items))
    }

    /// An adapter over the elements of an array, first to last.
    pub fn from_array<const N: usize>(items: &'a [T; N]) -> (r: Self)
        ensures
            r@ == items@.map_values(|x: T| &x),
    {
        FmtIter::from(items.as_slice())
    }
}

/// An adapter that yields `value` exactly `times` times.
pub fn repeat<T: Textual + Copy>(value: T, times: usize) -> (r: FmtIter<RepeatN<T>>)
    ensures
        r@ == copies(value, times as nat),
        r.text() == repeated(value.text(), times as nat),
        times == 0 ==> r.text() == Seq::<char>::empty(),
{
    proof {
        lemma_rendered_copies(value, times as nat);
    }
    FmtIter::new(RepeatN::new(value, times))
}

} // verus!
