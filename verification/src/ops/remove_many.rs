use super::{Index, ManyIndex, Remove};
use crate::{Cons, HList, Nil};
use vstd::prelude::*;

verus! {

/// Move many elements out of the heterogenous list by their types.
///
/// The elements are removed one after another, each from what the removals
/// before it have left: the first index points into the whole list, the
/// second into the list without the first removed element, and so on.
pub trait RemoveMany<T, I>: HList where T: HList, I: ManyIndex {
    /// Remaining part of the heterogenous list without removed elements.
    type Remainder: HList;

    /// The removed elements in the order in which they were asked for, and
    /// the elements that were left, in their order.
    spec fn spec_remove_many(self) -> (T, Self::Remainder);

    /// The list from which removing gives `list` and `remainder`: the
    /// elements of `list` are put back into `remainder` from the last to the
    /// first, each at the position that its index points to.
    spec fn spec_restore_many(list: T, remainder: Self::Remainder) -> Self;

    /// Moves many elements out of the heterogenous list by their types.
    fn remove_many(self) -> (out: (T, Self::Remainder))
        ensures
            out == self.spec_remove_many(),
            out.0.spec_len() + out.1.spec_len() == self.spec_len(),
    ;

    /// Putting the removed elements back at their positions gives the list
    /// as it was.
    proof fn lemma_remove_many_then_restore(self)
        ensures
            Self::spec_restore_many(self.spec_remove_many().0, self.spec_remove_many().1) == self,
    ;

    /// One element is removed for each index, and there are enough elements
    /// for that.
    proof fn lemma_one_for_each_index(self)
        ensures
            self.spec_remove_many().0.spec_len() == I::spec_values().len(),
            I::spec_values().len() <= self.spec_len(),
    ;
}

impl<T> RemoveMany<Nil, Nil> for T where T: HList {
    type Remainder = Self;

    open spec fn spec_remove_many(self) -> (Nil, Self) {
        (Nil, self)
    }

    open spec fn spec_restore_many(list: Nil, remainder: Self) -> Self {
        remainder
    }

    fn remove_many(self) -> (out: (Nil, Self)) {
        (Nil, self)
    }

    proof fn lemma_remove_many_then_restore(self) {
    }

    proof fn lemma_one_for_each_index(self) {
    }
}

impl<Head, Tail, OtherHead, OtherTail, IndexHead, IndexTail> RemoveMany<
    Cons<OtherHead, OtherTail>,
    Cons<IndexHead, IndexTail>,
> for Cons<Head, Tail> where
    Tail: HList,
    OtherTail: HList,
    IndexHead: Index,
    IndexTail: ManyIndex,
    Self: Remove<OtherHead, IndexHead>,
    <Self as Remove<OtherHead, IndexHead>>::Remainder: RemoveMany<OtherTail, IndexTail>,
 {
    type Remainder = <<Self as Remove<OtherHead, IndexHead>>::Remainder as RemoveMany<
        OtherTail,
        IndexTail,
    >>::Remainder;

    open spec fn spec_remove_many(self) -> (Cons<OtherHead, OtherTail>, Self::Remainder) {
        (
            Cons(self.spec_remove().0, self.spec_remove().1.spec_remove_many().0),
            self.spec_remove().1.spec_remove_many().1,
        )
    }

    open spec fn spec_restore_many(
        list: Cons<OtherHead, OtherTail>,
        remainder: Self::Remainder,
    ) -> Self {
        Self::spec_restore(
            list.0,
            <Self as Remove<OtherHead, IndexHead>>::Remainder::spec_restore_many(list.1, remainder),
        )
    }

    fn remove_many(self) -> (out: (Cons<OtherHead, OtherTail>, Self::Remainder)) {
        let (head, remainder) = self.remove();
        let (tail, remainder) = remainder.remove_many();
        let list = Cons(head, tail);
        (list, remainder)
    }

    proof fn lemma_remove_many_then_restore(self) {
        self.lemma_remove_then_restore();
        self.spec_remove().1.lemma_remove_many_then_restore();
    }

    proof fn lemma_one_for_each_index(self) {
        self.spec_remove().1.lemma_one_for_each_index();
        self.lemma_remove_len();
    }
}

} // verus!
