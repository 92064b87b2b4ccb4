use crate::{Cons, HList, Nil};
use vstd::prelude::*;

verus! {

/// Convert the heterogenous list into heterogenous list of mutable references.
pub trait ToMut<'a>: HList + 'a {
    /// Type of new heterogenous list with mutable references of elements.
    type Output: HList;

    /// The list of the values that the mutable references of `refs` point to
    /// now.
    spec fn spec_current(refs: Self::Output) -> Self;

    /// Converts the heterogenous list into heterogenous list of mutable
    /// references.
    ///
    /// Each element of the list is converted into its mutable reference, in
    /// the same order the list has.
    fn to_mut(&'a mut self) -> (out: Self::Output)
        ensures
            Self::spec_current(out) == *old(self),
            out.spec_len() == old(self).spec_len(),
    ;
}

impl<'a> ToMut<'a> for Nil {
    type Output = Nil;

    open spec fn spec_current(refs: Nil) -> Nil {
        Nil
    }

    fn to_mut(&'a mut self) -> (out: Nil) {
        Nil
    }
}

impl<'a, Head, Tail> ToMut<'a> for Cons<Head, Tail> where Head: 'a, Tail: ToMut<'a> {
    type Output = Cons<&'a mut Head, Tail::Output>;

    open spec fn spec_current(refs: Self::Output) -> Self {
        Cons(*refs.0, Tail::spec_current(refs.1))
    }

    /// What is written through the first reference replaces the head, and
    /// the other references are those of the tail: what is written through
    /// them replaces the elements of the tail as the tail's own `to_mut`
    /// says.
    fn to_mut(&'a mut self) -> (out: Self::Output)
        ensures
            final(self).0 == *final(out.0),
            exists|tail: &mut Tail|
                *tail == old(self).1 && *final(tail) == final(self).1 && call_ensures(
                    <Tail as ToMut<'a>>::to_mut,
                    (tail,),
                    out.1,
                ),
    {
        let Cons(head, tail) = self;
        let tail = tail.to_mut();
        Cons(head, tail)
    }
}

} // verus!
