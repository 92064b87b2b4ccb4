use super::{Append, Prepend};
use crate::{Cons, HList, Nil};
use vstd::prelude::*;

verus! {

/// Remove the last element from the heterogenous list.
pub trait Pop: HList {
    /// The last element of the heterogenous list.
    type Last;

    /// Remaining part of the heterogenous list without the last element.
    type Remainder: HList;

    /// The last element, paired with the elements that precede it.
    spec fn spec_pop(self) -> (Self::Last, Self::Remainder);

    /// Removes the last element from the heterogenous list.
    fn pop(self) -> (out: (Self::Last, Self::Remainder))
        ensures
            out == self.spec_pop(),
            out.1.spec_len() + 1 == self.spec_len(),
    ;
}

impl<Head> Pop for Cons<Head, Nil> {
    type Last = Head;

    type Remainder = Nil;

    open spec fn spec_pop(self) -> (Head, Nil) {
        (self.0, Nil)
    }

    fn pop(self) -> (out: (Head, Nil)) {
        let Cons(head, nil) = self;
        (head, nil)
    }
}

impl<Head, Tail> Pop for Cons<Head, Tail> where Tail: Pop, Tail::Remainder: Prepend<Head> {
    type Last = Tail::Last;

    type Remainder = <Tail::Remainder as Prepend<Head>>::Output;

    open spec fn spec_pop(self) -> (Self::Last, Self::Remainder) {
        (self.1.spec_pop().0, self.1.spec_pop().1.spec_prepend(self.0))
    }

    fn pop(self) -> (out: (Self::Last, Self::Remainder)) {
        let Cons(head, tail) = self;
        let (elem, list) = tail.pop();
        let list = list.prepend(head);
        (elem, list)
    }
}

/// Lists on which appending an element and then popping gives back the element
/// and the list: proved for [`Nil`], and for a [`Cons`] from its tail.
pub trait AppendThenPop<T>: Append<T> where Self::Output: Pop<Last = T, Remainder = Self> {
    /// Popping right after appending `value` returns `value` and leaves
    /// the list as it was.
    proof fn lemma_append_then_pop(self, value: T)
        ensures
            self.spec_append(value).spec_pop() == (value, self),
    ;
}

impl<T> AppendThenPop<T> for Nil {
    proof fn lemma_append_then_pop(self, value: T) {
    }
}

impl<T, Head, Tail> AppendThenPop<T> for Cons<Head, Tail> where
    Tail: AppendThenPop<T>,
    Tail::Output: Pop<Last = T, Remainder = Tail>,
 {
    proof fn lemma_append_then_pop(self, value: T) {
        self.1.lemma_append_then_pop(value);
    }
}

/// Non-empty lists on which popping and then appending the popped element
/// gives back the list: proved for a list of one element, and for a longer
/// list from its tail.
pub trait PopThenAppend: Pop where
    Self::Remainder: Append<Self::Last, Output = Self>,
 {
    /// Appending the popped element to what popping left gives the list as
    /// it was.
    proof fn lemma_pop_then_append(self)
        ensures
            self.spec_pop().1.spec_append(self.spec_pop().0) == self,
    ;
}

impl<Head> PopThenAppend for Cons<Head, Nil> {
    proof fn lemma_pop_then_append(self) {
        assert(self.1 == Nil);
    }
}

impl<Head, Tail> PopThenAppend for Cons<Head, Tail> where
    Tail: PopThenAppend,
    Tail::Remainder: Append<Tail::Last, Output = Tail>,
 {
    proof fn lemma_pop_then_append(self) {
        self.1.lemma_pop_then_append();
    }
}

} // verus!
