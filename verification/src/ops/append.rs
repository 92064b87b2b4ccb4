use crate::{Cons, HList, Nil};
use vstd::prelude::*;

verus! {

/// Append a new element to the heterogenous list.
pub trait Append<T>: HList {
    /// Type of the heterogenous list with the new element.
    type Output: HList;

    /// The list with `value` placed after its last element.
    spec fn spec_append(self, value: T) -> Self::Output;

    /// Appends a new element to the heterogenous list.
    ///
    /// The new element is placed at the end of the list.
    fn append(self, value: T) -> (out: Self::Output)
        ensures
            out == self.spec_append(value),
            out.spec_len() == self.spec_len() + 1,
    ;
}

impl<T> Append<T> for Nil {
    type Output = Cons<T, Nil>;

    open spec fn spec_append(self, value: T) -> Self::Output {
        Cons(value, Nil)
    }

    fn append(self, value: T) -> (out: Self::Output) {
        Cons(value, self)
    }
}

impl<T, Head, Tail> Append<T> for Cons<Head, Tail> where Tail: Append<T> {
    type Output = Cons<Head, Tail::Output>;

    open spec fn spec_append(self, value: T) -> Self::Output {
        Cons(self.0, self.1.spec_append(value))
    }

    fn append(self, value: T) -> (out: Self::Output) {
        let Cons(head, tail) = self;
        let tail = tail.append(value);
        Cons(head, tail)
    }
}

} // verus!
