use super::{Pair, Zip};
use crate::{Cons, HList, Nil};
use vstd::prelude::*;

verus! {

/// Convert a heterogenous list of pairs into a pair of heterogenous lists.
pub trait Unzip: HList {
    /// Type of the first heterogenous list from the resulting pair.
    type First: HList;

    /// Type of the second heterogenous list from the resulting pair.
    type Second: HList;

    /// The list of the first parts and the list of the second parts of the
    /// elements, each in the order of the elements.
    spec fn spec_unzip(self) -> (Self::First, Self::Second);

    /// Converts a heterogenous list of pairs into a pair of heterogenous lists.
    ///
    /// It consumes an entire list of pairs, producing two lists: one from the
    /// first parts of the pairs, and one from the second parts.
    fn unzip(self) -> (out: (Self::First, Self::Second))
        ensures
            out == self.spec_unzip(),
            out.0.spec_len() == self.spec_len(),
            out.1.spec_len() == self.spec_len(),
    ;
}

impl Unzip for Nil {
    type First = Nil;

    type Second = Nil;

    open spec fn spec_unzip(self) -> (Nil, Nil) {
        (Nil, Nil)
    }

    fn unzip(self) -> (out: (Nil, Nil)) {
        (self, self)
    }
}

impl<Head, Tail> Unzip for Cons<Head, Tail> where Head: Pair, Tail: Unzip {
    type First = Cons<Head::First, Tail::First>;

    type Second = Cons<Head::Second, Tail::Second>;

    open spec fn spec_unzip(self) -> (Self::First, Self::Second) {
        (
            Cons(self.0.spec_destruct().0, self.1.spec_unzip().0),
            Cons(self.0.spec_destruct().1, self.1.spec_unzip().1),
        )
    }

    fn unzip(self) -> (out: (Self::First, Self::Second)) {
        let Cons(head, tail) = self;
        let (head_first, head_second) = head.destruct();
        let (tail_first, tail_second) = tail.unzip();

        let first = Cons(head_first, tail_first);
        let second = Cons(head_second, tail_second);
        (first, second)
    }
}

/// Pairs of lists on which zipping and then unzipping gives back the two
/// lists: proved for two empty lists, and for two non-empty lists from their
/// tails.
pub trait ZipThenUnzip<Other>: Zip<Other> where
    Other: HList,
    Self::Output: Unzip<First = Self, Second = Other>,
 {
    /// Unzipping the list of pairs made of `self` and `other` returns `self`
    /// and `other`.
    proof fn lemma_zip_then_unzip(self, other: Other)
        ensures
            self.spec_zip(other).spec_unzip() == (self, other),
    ;
}

impl ZipThenUnzip<Nil> for Nil {
    proof fn lemma_zip_then_unzip(self, other: Nil) {
    }
}

impl<Head, Tail, OHead, OTail> ZipThenUnzip<Cons<OHead, OTail>> for Cons<Head, Tail> where
    Tail: ZipThenUnzip<OTail>,
    OTail: HList,
    Tail::Output: Unzip<First = Tail, Second = OTail>,
 {
    proof fn lemma_zip_then_unzip(self, other: Cons<OHead, OTail>) {
        self.1.lemma_zip_then_unzip(other.1);
    }
}

/// Lists of pairs on which unzipping and then zipping gives back the list:
/// proved for [`Nil`], and for a [`Cons`] of a pair from its tail.
pub trait UnzipThenZip: Unzip where Self::First: Zip<Self::Second, Output = Self> {
    /// Zipping the two lists that unzipping returns gives the list of pairs
    /// as it was.
    proof fn lemma_unzip_then_zip(self)
        ensures
            self.spec_unzip().0.spec_zip(self.spec_unzip().1) == self,
    ;
}

impl UnzipThenZip for Nil {
    proof fn lemma_unzip_then_zip(self) {
    }
}

impl<A, B, Tail> UnzipThenZip for Cons<(A, B), Tail> where
    Tail: UnzipThenZip,
    Tail::First: Zip<Tail::Second, Output = Tail>,
 {
    proof fn lemma_unzip_then_zip(self) {
        self.1.lemma_unzip_then_zip();
    }
}

} // verus!
