use super::{Get, Here, Index, Prepend, There};
use crate::{Cons, HList};
use vstd::prelude::*;

verus! {

/// Move element out of the heterogenous list by type.
pub trait Remove<T, I>: Get<T, I> where I: Index {
    /// Remaining part of the heterogenous list without a removed element.
    type Remainder: HList;

    /// The element that the index points to, and the other elements in their
    /// order.
    spec fn spec_remove(self) -> (T, Self::Remainder);

    /// The list that holds `value` at the position that the index points to,
    /// and the elements of `remainder` around it, in their order.
    spec fn spec_restore(value: T, remainder: Self::Remainder) -> Self;

    /// Moves element out of the heterogenous list by type.
    ///
    /// Returns the element that [`Get::get`] retrieves, and the list of the
    /// remaining elements.
    fn remove(self) -> (out: (T, Self::Remainder))
        ensures
            out == self.spec_remove(),
            out.0 == self.spec_get(),
            out.1.spec_len() + 1 == self.spec_len(),
    ;

    /// Removing takes one element: the remainder is one shorter than the
    /// list.
    proof fn lemma_remove_len(self)
        ensures
            self.spec_remove().1.spec_len() + 1 == self.spec_len(),
    ;

    /// Putting the removed element back at its position gives the list as
    /// it was.
    proof fn lemma_remove_then_restore(self)
        ensures
            Self::spec_restore(self.spec_remove().0, self.spec_remove().1) == self,
    ;

    /// Removing from a list the element that was put into it at the index's
    /// position gives that element and the list it was put into.
    proof fn lemma_restore_then_remove(value: T, remainder: Self::Remainder)
        ensures
            Self::spec_restore(value, remainder).spec_remove() == (value, remainder),
    ;
}

impl<Head, Tail> Remove<Head, Here> for Cons<Head, Tail> where Tail: HList {
    type Remainder = Tail;

    open spec fn spec_remove(self) -> (Head, Tail) {
        (self.0, self.1)
    }

    open spec fn spec_restore(value: Head, remainder: Tail) -> Self {
        remainder.spec_prepend(value)
    }

    fn remove(self) -> (out: (Head, Tail)) {
        let Cons(head, tail) = self;
        (head, tail)
    }

    proof fn lemma_remove_len(self) {
    }

    proof fn lemma_remove_then_restore(self) {
    }

    proof fn lemma_restore_then_remove(value: Head, remainder: Tail) {
    }
}

impl<Head, Tail, FromTail, TailIndex> Remove<FromTail, There<TailIndex>> for Cons<
    Head,
    Tail,
> where Tail: Remove<FromTail, TailIndex>, TailIndex: Index {
    type Remainder = Cons<Head, Tail::Remainder>;

    open spec fn spec_remove(self) -> (FromTail, Self::Remainder) {
        (self.1.spec_remove().0, self.1.spec_remove().1.spec_prepend(self.0))
    }

    open spec fn spec_restore(value: FromTail, remainder: Self::Remainder) -> Self {
        Cons(remainder.0, Tail::spec_restore(value, remainder.1))
    }

    fn remove(self) -> (out: (FromTail, Self::Remainder)) {
        let Cons(head, tail) = self;
        let (removed, tail) = tail.remove();
        let remainder = tail.prepend(head);
        (removed, remainder)
    }

    proof fn lemma_remove_len(self) {
        self.1.lemma_remove_len();
    }

    proof fn lemma_remove_then_restore(self) {
        self.1.lemma_remove_then_restore();
    }

    proof fn lemma_restore_then_remove(value: FromTail, remainder: Self::Remainder) {
        Tail::lemma_restore_then_remove(value, remainder.1);
    }
}

} // verus!
