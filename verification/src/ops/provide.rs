use super::{Get, Here, Index, Prepend, Remove, There};
use crate::{Cons, HList};
use vstd::prelude::*;

verus! {

/// Provide element of the heterogenous list by type.
///
/// It provides the element that [`Get`] retrieves for the same type and
/// index.
pub trait Provide<T, I>: Get<T, I> where I: Index {
    /// Provides a reference to the element of the heterogenous list by type.
    fn provide(&self) -> (out: &T)
        ensures
            *out == self.spec_get(),
    ;

    /// Provides a mutable reference to the element of the heterogenous list
    /// by type.
    ///
    /// What is written through the reference replaces that element, and no
    /// other.
    fn provide_mut(&mut self) -> (out: &mut T)
        ensures
            *out == old(self).spec_get(),
            *final(self) == old(self).spec_set(*final(out)),
    ;
}

/// Desired type is located in the head of the heterogenous list.
impl<Head, Tail> Provide<Head, Here> for Cons<Head, Tail> where Tail: HList {
    fn provide(&self) -> (out: &Head) {
        let Cons(head, _) = self;
        head
    }

    fn provide_mut(&mut self) -> (out: &mut Head) {
        &mut self.0
    }
}

/// Desired type is located somewhere in the tail of the heterogenous list.
impl<Head, Tail, FromTail, TailIndex> Provide<FromTail, There<TailIndex>> for Cons<
    Head,
    Tail,
> where Tail: Provide<FromTail, TailIndex>, TailIndex: Index {
    fn provide(&self) -> (out: &FromTail) {
        let Cons(_, tail) = self;
        tail.provide()
    }

    fn provide_mut(&mut self) -> (out: &mut FromTail) {
        self.1.provide_mut()
    }
}

/// Move element out of the heterogenous list by type.
///
/// It moves out the element that [`Remove`] removes for the same type and
/// index, and leaves the same remainder.
pub trait ProvideOnce<T, I>: Provide<T, I> + Remove<T, I> where I: Index {
    /// Moves element out of the heterogenous list by type.
    ///
    /// Returns the element that [`Provide::provide`] provides, and the list
    /// of the remaining elements.
    fn provide_once(self) -> (out: (T, <Self as Remove<T, I>>::Remainder))
        ensures
            out == self.spec_remove(),
            out.0 == self.spec_get(),
            out.1.spec_len() + 1 == self.spec_len(),
    ;
}

impl<Head, Tail> ProvideOnce<Head, Here> for Cons<Head, Tail> where Tail: HList {
    fn provide_once(self) -> (out: (Head, Tail)) {
        let Cons(head, tail) = self;
        (head, tail)
    }
}

impl<Head, Tail, FromTail, TailIndex> ProvideOnce<FromTail, There<TailIndex>> for Cons<
    Head,
    Tail,
> where Tail: ProvideOnce<FromTail, TailIndex>, TailIndex: Index {
    fn provide_once(self) -> (out: (FromTail, Cons<Head, Tail::Remainder>)) {
        let Cons(head, tail) = self;
        let (value, tail) = tail.provide_once();
        let remainder = tail.prepend(head);
        (value, remainder)
    }
}

} // verus!
