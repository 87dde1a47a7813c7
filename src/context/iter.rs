//! The iterator shared by all context stores: a chain of entry slices that is
//! walked lazily, so that the contexts of a whole causal chain can be visited in
//! one pass without copying them.
use vstd::prelude::*;

use crate::context::AbstractContext;

verus! {

/// A linked list of entry slices still to be visited.
#[derive(Debug)]
pub enum CommonIter<'a, E> {
    Node { entries: &'a [E], next: Option<Box<CommonIter<'a, E>>> },
    Empty,
}

impl<'a, E> CommonIter<'a, E> {
    /// The entries that remain to be yielded, in order.
    pub open spec fn remaining(&self) -> Seq<E>
        decreases self,
    {
        match self {
            CommonIter::Node { entries, next } => match next {
                Some(rest) => entries@ + rest.remaining(),
                None => entries@,
            },
            CommonIter::Empty => Seq::empty(),
        }
    }

    /// Returns an iterator that yields nothing.
    pub fn new() -> (r: Self)
        ensures
            r@ == Seq::<E>::empty(),
    {
        CommonIter::Empty
    }

    /// Returns an iterator over the entries of a slice.
    pub fn from_slice(entries: &'a [E]) -> (r: Self)
        ensures
            r@ == entries@,
    {
        CommonIter::Node { entries, next: None }
    }

    /// Yields the entries of `self`, then those of `other`.
    pub fn compose(self, other: Self) -> (r: Self)
        ensures
            r@ == self@ + other@,
        decreases self,
    {
        match self {
            CommonIter::Node { entries, next } => {
                let rest = match next {
                    Some(rest) => (*rest).compose(other),
                    None => other,
                };
                let r = CommonIter::Node { entries, next: Some(Box::new(rest)) };
                proof {
                    assert(r@ =~= self@ + other@);
                }
                r
            },
            CommonIter::Empty => {
                assert(other@ =~= self@ + other@);
                other
            },
        }
    }

    /// Yields the entries of `context` first, then those of `self`.
    pub fn concat<X: AbstractContext<Entry = E>>(self, context: &'a X) -> (r: Self)
        ensures
            r@ == context.spec_entries() + self@,
    {
        context.iter().compose(self)
    }

    /// Removes the first remaining entry, by value.
    fn advance(self) -> (r: (Option<&'a E>, Self))
        ensures
            self@.len() == 0 ==> r.0 is None && r.1@ == self@,
            self@.len() > 0 ==> r.0 == Some(&self@[0]) && r.1@ == self@.drop_first(),
        decreases self,
    {
        match self {
            CommonIter::Node { entries, next } => {
                if entries.len() > 0 {
                    let (head, tail) = entries.split_at(1);
                    let item = &head[0];
                    let r = (Some(item), CommonIter::Node { entries: tail, next });
                    proof {
                        assert(r.1@ =~= self@.drop_first());
                    }
                    r
                } else {
                    match next {
                        Some(rest) => {
                            assert(self@ =~= rest@);
                            (*rest).advance()
                        },
                        None => {
                            assert(self@ =~= Seq::<E>::empty());
                            (None, CommonIter::Empty)
                        },
                    }
                }
            },
            CommonIter::Empty => (None, CommonIter::Empty),
        }
    }

    /// Yields the next entry, or `None` once all entries have been yielded.
    pub fn next(&mut self) -> (r: Option<&'a E>)
        ensures
            old(self)@.len() == 0 ==> r is None && final(self)@ == old(self)@,
            old(self)@.len() > 0 ==> r == Some(&old(self)@[0]) && final(self)@ == old(
                self,
            )@.drop_first(),
    {
        let mut current = CommonIter::Empty;
        std::mem::swap(&mut current, self);
        let (item, rest) = current.advance();
        *self = rest;
        item
    }

    /// Returns true if no entry remains.
    pub fn is_empty(&self) -> (r: bool)
        ensures
            r == (self@.len() == 0),
        decreases self,
    {
        match self {
            CommonIter::Node { entries, next } => {
                if entries.len() > 0 {
                    false
                } else {
                    match next {
                        Some(rest) => rest.is_empty(),
                        None => true,
                    }
                }
            },
            CommonIter::Empty => true,
        }
    }

    /// Consumes the iterator and returns how many entries remained.
    pub fn count(self) -> (r: usize)
        requires
            self@.len() <= usize::MAX,
        ensures
            r == self@.len(),
    {
        let mut it = self;
        let mut n: usize = 0;
        while n < usize::MAX
            invariant
                n + it@.len() == self@.len(),
                self@.len() <= usize::MAX,
            decreases it@.len(),
        {
            match it.next() {
                Some(_) => {
                    n = n + 1;
                },
                None => {
                    return n;
                },
            }
        }
        n
    }

    /// Consumes the iterator and collects the remaining entries in order.
    pub fn to_vec(self) -> (r: Vec<&'a E>)
        ensures
            r@.len() == self@.len(),
            forall|i: int| 0 <= i < r@.len() ==> *r@[i] == self@[i],
    {
        let mut it = self;
        let mut out: Vec<&'a E> = Vec::new();
        loop
            invariant
                out@.len() + it@.len() == self@.len(),
                forall|i: int| 0 <= i < out@.len() ==> *out@[i] == self@[i],
                forall|i: int| 0 <= i < it@.len() ==> it@[i] == self@[out@.len() + i],
            decreases it@.len(),
        {
            let ghost before = it@;
            match it.next() {
                Some(e) => {
                    out.push(e);
                    proof {
                        assert forall|i: int| 0 <= i < it@.len() implies it@[i] == self@[out@.len()
                            + i] by {
                            assert(it@[i] == before[i + 1]);
                        }
                    }
                },
                None => {
                    return out;
                },
            }
        }
    }
}

impl<'a, E> View for CommonIter<'a, E> {
    type V = Seq<E>;

    open spec fn view(&self) -> Seq<E> {
        self.remaining()
    }
}

impl<'a, E> Default for CommonIter<'a, E> {
    fn default() -> (r: Self)
        ensures
            r@ == Seq::<E>::empty(),
    {
        CommonIter::Empty
    }
}

} // verus!
