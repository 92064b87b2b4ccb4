use super::Extend;
use crate::{Cons, HList, Nil};
use vstd::prelude::*;

verus! {

/// Flattens one level of nesting in a heterogenous list of heterogenous lists.
///
/// Only one level is removed: a list of lists of lists becomes a list of
/// lists, and has to be flattened once more to become a list of elements.
pub trait Flatten: HList {
    /// Flattened heterogenous list.
    type Output: HList;

    /// The elements of the first inner list, followed by the elements of the
    /// second, and so on to the last.
    spec fn spec_flatten(self) -> Self::Output;

    /// The lengths of the inner lists, added up.
    spec fn spec_inner_len(&self) -> nat;

    /// Flattens a heterogenous list of heterogenous lists, removing one level
    /// of nesting.
    fn flatten(self) -> (out: Self::Output)
        ensures
            out == self.spec_flatten(),
            out.spec_len() == self.spec_inner_len(),
    ;
}

impl Flatten for Nil {
    type Output = Self;

    open spec fn spec_flatten(self) -> Nil {
        Nil
    }

    open spec fn spec_inner_len(&self) -> nat {
        0
    }

    fn flatten(self) -> (out: Nil) {
        self
    }
}

impl<Head, Tail> Flatten for Cons<Head, Tail> where Tail: Flatten, Head: Extend<Tail::Output> {
    type Output = Head::Output;

    open spec fn spec_flatten(self) -> Self::Output {
        self.0.spec_extend(self.1.spec_flatten())
    }

    open spec fn spec_inner_len(&self) -> nat {
        self.0.spec_len() + self.1.spec_inner_len()
    }

    fn flatten(self) -> (out: Self::Output) {
        let Cons(head, tail) = self;
        let tail = tail.flatten();
        head.extend(tail)
    }
}

} // verus!
