use crate::{Cons, HList};
use vstd::prelude::*;

verus! {

/// Prepend a new element to the heterogenous list.
pub trait Prepend<T>: HList {
    /// Type of the heterogenous list with the new element.
    type Output: HList;

    /// The list with `value` placed before its first element.
    spec fn spec_prepend(self, value: T) -> Self::Output;

    /// Prepends a new element to the heterogenous list.
    ///
    /// The new element is placed at the beginning of the list.
    fn prepend(self, value: T) -> (out: Self::Output)
        ensures
            out == self.spec_prepend(value),
            out.spec_len() == self.spec_len() + 1,
    ;
}

impl<T, L> Prepend<T> for L where L: HList {
    type Output = Cons<T, L>;

    open spec fn spec_prepend(self, value: T) -> Self::Output {
        Cons(value, self)
    }

    fn prepend(self, value: T) -> (out: Self::Output) {
        Cons(value, self)
    }
}

} // verus!
