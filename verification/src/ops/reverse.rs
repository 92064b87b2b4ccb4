use crate::{Cons, HList, Nil};
use vstd::prelude::*;

verus! {

/// Reverse elements of the heterogenous list.
pub trait Reverse: HList {
    /// Type of new heterogenous list with the opposite order of elements.
    type Output: HList;

    /// The elements of the list from the last to the first.
    spec fn spec_reverse(self) -> Self::Output;

    /// Reverses elements of the heterogenous list.
    ///
    /// New heterogenous list contains all elements of the old one in the
    /// opposite order.
    fn reverse(self) -> (out: Self::Output)
        ensures
            out == self.spec_reverse(),
            out.spec_len() == self.spec_len(),
    ;
}

impl<T> Reverse for T where T: Rewind<Nil> {
    type Output = T::Output;

    open spec fn spec_reverse(self) -> T::Output {
        self.spec_rewind(Nil)
    }

    fn reverse(self) -> (out: T::Output) {
        self.rewind(Nil)
    }
}

/// Move the elements of the heterogenous list, one by one from the first, to
/// the front of a list of elements that were moved before.
pub trait Rewind<Done>: HList where Done: HList {
    /// Type of the list of all elements, those of this list in the opposite
    /// order before those that were done.
    type Output: HList;

    /// The elements of `self` from the last to the first, followed by the
    /// elements of `done`.
    spec fn spec_rewind(self, done: Done) -> Self::Output;

    /// Moves each element, starting with the first, to the front of `done`.
    fn rewind(self, done: Done) -> (out: Self::Output)
        ensures
            out == self.spec_rewind(done),
            out.spec_len() == self.spec_len() + done.spec_len(),
    ;
}

impl<Done> Rewind<Done> for Nil where Done: HList {
    type Output = Done;

    open spec fn spec_rewind(self, done: Done) -> Done {
        done
    }

    fn rewind(self, done: Done) -> (out: Done) {
        done
    }
}

impl<Done, Next, Tail> Rewind<Done> for Cons<Next, Tail> where
    Done: HList,
    Tail: Rewind<Cons<Next, Done>>,
 {
    type Output = Tail::Output;

    open spec fn spec_rewind(self, done: Done) -> Tail::Output {
        self.1.spec_rewind(Cons(self.0, done))
    }

    fn rewind(self, done: Done) -> (out: Tail::Output) {
        let Cons(next, tail) = self;
        tail.rewind(Cons(next, done))
    }
}

/// Lists which, rewound onto `done` and then reversed, are what `done`
/// rewound onto them is: proved for [`Nil`], and for a [`Cons`] from its tail
/// and the longer list of done elements.
pub trait RewindTwice<Done>: Rewind<Done> where
    Done: Rewind<Self>,
    <Self as Rewind<Done>>::Output: Rewind<Nil, Output = <Done as Rewind<Self>>::Output>,
 {
    /// Rewinding `self` onto `done` and reversing the result gives the
    /// elements of `done` in the opposite order, followed by those of `self`.
    proof fn lemma_rewind_twice(self, done: Done)
        ensures
            self.spec_rewind(done).spec_rewind(Nil) == done.spec_rewind(self),
    ;
}

impl<Done> RewindTwice<Done> for Nil where Done: Rewind<Nil> {
    proof fn lemma_rewind_twice(self, done: Done) {
    }
}

impl<Done, Next, Tail> RewindTwice<Done> for Cons<Next, Tail> where
    Done: Rewind<Cons<Next, Tail>>,
    Tail: RewindTwice<Cons<Next, Done>>,
    <Tail as Rewind<Cons<Next, Done>>>::Output: Rewind<
        Nil,
        Output = <Done as Rewind<Cons<Next, Tail>>>::Output,
    >,
 {
    proof fn lemma_rewind_twice(self, done: Done) {
        self.1.lemma_rewind_twice(Cons(self.0, done));
    }
}

/// Reversing a list twice gives back the list.
pub proof fn lemma_reverse_twice<L>(list: L) where
    L: RewindTwice<Nil>,
    <L as Rewind<Nil>>::Output: Rewind<Nil, Output = L>,
    ensures
        list.spec_reverse().spec_reverse() == list,
{
    list.lemma_rewind_twice(Nil);
}

} // verus!
