use crate::{Cons, HList, Nil};
use vstd::prelude::*;

verus! {

/// Merge two heterogenous lists into a single heterogenous list of pairs.
///
/// It is implemented only for two lists of the same length.
pub trait Zip<Other>: HList where Other: HList {
    /// Type of the new heterogenous list after merging.
    type Output: HList;

    /// The list of pairs whose element at each position holds the element of
    /// `self` and the element of `other` at that position.
    spec fn spec_zip(self, other: Other) -> Self::Output;

    /// Merges, or 'zips up' two heterogenous lists into a single heterogenous
    /// list of pairs.
    ///
    /// The first part of each pair comes from the first list, the second part
    /// from the second list.
    fn zip(self, other: Other) -> (out: Self::Output)
        ensures
            out == self.spec_zip(other),
            out.spec_len() == self.spec_len(),
            out.spec_len() == other.spec_len(),
    ;
}

impl Zip<Nil> for Nil {
    type Output = Nil;

    open spec fn spec_zip(self, other: Nil) -> Nil {
        Nil
    }

    fn zip(self, _other: Nil) -> (out: Nil) {
        self
    }
}

impl<Head, Tail, OHead, OTail> Zip<Cons<OHead, OTail>> for Cons<Head, Tail> where
    Tail: Zip<OTail>,
    OTail: HList,
 {
    type Output = Cons<(Head, OHead), Tail::Output>;

    open spec fn spec_zip(self, other: Cons<OHead, OTail>) -> Self::Output {
        Cons((self.0, other.0), self.1.spec_zip(other.1))
    }

    fn zip(self, other: Cons<OHead, OTail>) -> (out: Self::Output) {
        let Cons(head, tail) = self;
        let Cons(o_head, o_tail) = other;
        Cons((head, o_head), tail.zip(o_tail))
    }
}

} // verus!
