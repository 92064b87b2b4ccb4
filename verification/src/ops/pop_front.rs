use super::Prepend;
use crate::{Cons, HList};
use vstd::prelude::*;

verus! {

/// Remove the first element from the heterogenous list.
pub trait PopFront: HList {
    /// The first element of the heterogenous list.
    type First;

    /// Remaining part of the heterogenous list without the first element.
    type Remaining: HList;

    /// The first element, paired with the elements that follow it.
    spec fn spec_pop_front(self) -> (Self::First, Self::Remaining);

    /// Removes the first element from the heterogenous list.
    fn pop_front(self) -> (out: (Self::First, Self::Remaining))
        ensures
            out == self.spec_pop_front(),
            out.1.spec_len() + 1 == self.spec_len(),
    ;
}

impl<Head, Tail> PopFront for Cons<Head, Tail> where Tail: HList {
    type First = Head;

    type Remaining = Tail;

    open spec fn spec_pop_front(self) -> (Head, Tail) {
        (self.0, self.1)
    }

    fn pop_front(self) -> (out: (Head, Tail)) {
        let Cons(head, tail) = self;
        (head, tail)
    }
}

/// Removing the first element right after prepending `value` returns `value`
/// and leaves the list as it was.
pub proof fn lemma_prepend_then_pop_front<T, L>(list: L, value: T) where L: HList
    ensures
        list.spec_prepend(value).spec_pop_front() == (value, list),
{
}

} // verus!
