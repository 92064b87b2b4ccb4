use super::{Here, Index, There};
use crate::{Cons, HList};
use vstd::prelude::*;

verus! {

/// Retrieve element of the heterogenous list by type.
///
/// The index says which element is meant where the list holds the type more
/// than once: [`Here`] is the head, [`There`] of an index is the element
/// that the index points to in the tail.
pub trait Get<T, I>: HList where I: Index {
    /// The element that the index points to.
    spec fn spec_get(&self) -> T;

    /// The list with `value` in place of the element that the index points
    /// to, and every other element as it is.
    spec fn spec_set(self, value: T) -> Self;

    /// Retrieves a reference to the element of the heterogenous list by type.
    fn get(&self) -> (out: &T)
        ensures
            *out == self.spec_get(),
    ;

    /// Retrieves a mutable reference to the element of the heterogenous list
    /// by type.
    ///
    /// What is written through the reference replaces that element, and no
    /// other.
    fn get_mut(&mut self) -> (out: &mut T)
        ensures
            *out == old(self).spec_get(),
            *final(self) == old(self).spec_set(*final(out)),
    ;

    /// The index points into the list: the number it stands for is less than
    /// the length of the list.
    proof fn lemma_index_in_range(&self)
        ensures
            I::spec_value() < self.spec_len(),
    ;

    /// An element that was set is the one that is retrieved; setting an
    /// element to what it is changes nothing, and neither does the length
    /// change.
    proof fn lemma_get_set(self, value: T)
        ensures
            self.spec_set(value).spec_get() == value,
            self.spec_set(self.spec_get()) == self,
            self.spec_set(value).spec_len() == self.spec_len(),
    ;
}

/// Desired type is located in the head of the heterogenous list.
impl<Head, Tail> Get<Head, Here> for Cons<Head, Tail> where Tail: HList {
    open spec fn spec_get(&self) -> Head {
        self.0
    }

    open spec fn spec_set(self, value: Head) -> Self {
        Cons(value, self.1)
    }

    fn get(&self) -> (out: &Head) {
        let Cons(head, _) = self;
        head
    }

    fn get_mut(&mut self) -> (out: &mut Head) {
        &mut self.0
    }

    proof fn lemma_index_in_range(&self) {
    }

    proof fn lemma_get_set(self, value: Head) {
    }
}

/// Desired type is located somewhere in the tail of the heterogenous list.
impl<Head, Tail, FromTail, TailIndex> Get<FromTail, There<TailIndex>> for Cons<Head, Tail> where
    Tail: Get<FromTail, TailIndex>,
    TailIndex: Index,
 {
    open spec fn spec_get(&self) -> FromTail {
        self.1.spec_get()
    }

    open spec fn spec_set(self, value: FromTail) -> Self {
        Cons(self.0, self.1.spec_set(value))
    }

    fn get(&self) -> (out: &FromTail) {
        let Cons(_, tail) = self;
        tail.get()
    }

    fn get_mut(&mut self) -> (out: &mut FromTail) {
        self.1.get_mut()
    }

    proof fn lemma_index_in_range(&self) {
        self.1.lemma_index_in_range();
    }

    proof fn lemma_get_set(self, value: FromTail) {
        self.1.lemma_get_set(value);
    }
}

} // verus!
