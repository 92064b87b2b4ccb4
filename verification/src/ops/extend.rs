use crate::{Cons, HList, Nil};
use vstd::prelude::*;

verus! {

/// Extend heterogenous list with another heterogenous list.
pub trait Extend<T>: HList where T: HList {
    /// Type of heterogenous list extended with elements of another
    /// heterogenous list.
    type Output: HList;

    /// The elements of `self` followed by the elements of `list`.
    spec fn spec_extend(self, list: T) -> Self::Output;

    /// Extends heterogenous list with another heterogenous list.
    ///
    /// Elements of the other list are placed after the elements of this list,
    /// in the order in which they were in the other list.
    fn extend(self, list: T) -> (out: Self::Output)
        ensures
            out == self.spec_extend(list),
            out.spec_len() == self.spec_len() + list.spec_len(),
    ;
}

impl<T> Extend<T> for Nil where T: HList {
    type Output = T;

    open spec fn spec_extend(self, list: T) -> T {
        list
    }

    fn extend(self, list: T) -> (out: T) {
        list
    }
}

impl<T, Head, Tail> Extend<T> for Cons<Head, Tail> where T: HList, Tail: Extend<T> {
    type Output = Cons<Head, Tail::Output>;

    open spec fn spec_extend(self, list: T) -> Self::Output {
        Cons(self.0, self.1.spec_extend(list))
    }

    fn extend(self, list: T) -> (out: Self::Output) {
        let Cons(head, tail) = self;
        let tail = tail.extend(list);
        Cons(head, tail)
    }
}

} // verus!
