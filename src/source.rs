//! Restartable item sources: what an adapter walks through.
use vstd::prelude::*;

verus! {

/// A sequence producer that can be duplicated into an independent cursor.
///
/// `rest` is what the producer has still to yield, in order.
pub trait Source: Sized {
    type Item;

    spec fn rest(&self) -> Seq<Self::Item>;

    /// Yields the first remaining item, or `None` once nothing is left.
    fn next(&mut self) -> (r: Option<Self::Item>)
        ensures
            old(self).rest().len() == 0 ==> r is None && final(self).rest() == old(self).rest(),
            old(self).rest().len() > 0 ==> r == Some(old(self).rest()[0]) && final(self).rest()
                == old(self).rest().drop_first(),
    ;

    /// The number of items still to come.
    fn len(&self) -> (n: usize)
        ensures
            n == self.rest().len(),
    ;

    /// An independent cursor at the same position.
    fn fork(&self) -> (r: Self)
        ensures
            r.rest() == self.rest(),
    ;
}

/// A cursor over the elements of a slice, yielding a reference to each.
#[derive(Debug)]
pub struct SliceIter<'a, T> {
    slice: &'a [T],
    pos: usize,
}

impl<'a, T> SliceIter<'a, T> {
    #[verifier::type_invariant]
    spec fn inv(&self) -> bool {
        self.pos <= self.slice@.len()
    }

    /// A cursor at the first element of `slice`.
    pub fn new(slice: &'a [T]) -> (r: Self)
        ensures
            r.rest() == slice@.map_values(|x: T| &x),
    {
        let r = SliceIter { slice, pos: 0 };
        assert(r.rest() =~= slice@.map_values(|x: T| &x));
        r
    }
}

impl<'a, T> Source for SliceIter<'a, T> {
    type Item = &'a T;

    closed spec fn rest(&self) -> Seq<&'a T> {
        self.slice@.subrange(self.pos as int, self.slice@.len() as int).map_values(|x: T| &x)
    }

    fn next(&mut self) -> (r: Option<&'a T>) {
        proof {
            use_type_invariant(&*self);
        }
        if self.pos < self.slice.len() {
            let item = &self.slice[self.pos];
            self.pos = self.pos + 1;
            assert(self.rest() =~= old(self).rest().drop_first());
            Some(item)
        } else {
            None
        }
    }

    fn len(&self) -> (n: usize) {
        proof {
            use_type_invariant(self);
        }
        self.slice.len() - self.pos
    }

    fn fork(&self) -> (r: Self) {
        proof {
            use_type_invariant(self);
        }
        SliceIter { slice: self.slice, pos: self.pos }
    }
}

impl<'a, T> Clone for SliceIter<'a, T> {
    fn clone(&self) -> (r: Self)
        ensures
            r.rest() == self.rest(),
    {
        self.fork()
    }
}

impl<'a, T> Copy for SliceIter<'a, T> {

}

/// `n` copies of `v`.
pub open spec fn copies<T>(v: T, n: nat) -> Seq<T> {
    Seq::new(n, |i: int| v)
}

/// A source that yields one value a fixed number of times.
#[derive(Clone, Copy, Debug)]
pub struct RepeatN<T> {
    value: T,
    left: usize,
}

impl<T: Copy> RepeatN<T> {
    /// A source of `times` copies of `value`.
    pub fn new(value: T, times: usize) -> (r: Self)
        ensures
            r.rest() == copies(value, times as nat),
    {
        RepeatN { value, left: times }
    }
}

impl<T: Copy> Source for RepeatN<T> {
    type Item = T;

    closed spec fn rest(&self) -> Seq<T> {
        copies(self.value, self.left as nat)
    }

    fn next(&mut self) -> (r: Option<T>) {
        if self.left > 0 {
            self.left = self.left - 1;
            assert(self.rest() =~= old(self).rest().drop_first());
            Some(self.value)
        } else {
            assert(self.rest() =~= old(self).rest());
            None
        }
    }

    fn len(&self) -> (n: usize) {
        self.left
    }

    fn fork(&self) -> (r: Self) {
        RepeatN { value: self.value, left: self.left }
    }
}

} // verus!
