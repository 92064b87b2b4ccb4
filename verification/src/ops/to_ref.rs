use crate::{Cons, HList, Nil};
use vstd::prelude::*;

verus! {

/// Convert the heterogenous list into heterogenous list of references.
pub trait ToRef<'a>: HList + 'a {
    /// Type of new heterogenous list with references of elements.
    type Ref: HList;

    /// Type of new heterogenous list with mutable references of elements.
    type RefMut: HList;

    /// The list of references to the elements, in the order of the elements.
    spec fn spec_to_ref(&'a self) -> Self::Ref;

    /// The list of the values that the references of `refs` point to.
    spec fn spec_deref(refs: Self::Ref) -> Self;

    /// The list of the values that the mutable references of `refs` point to
    /// now.
    spec fn spec_current(refs: Self::RefMut) -> Self;

    /// Converts the heterogenous list into heterogenous list of references.
    ///
    /// Each element of the list is converted into its reference, in the same
    /// order the list has.
    fn to_ref(&'a self) -> (out: Self::Ref)
        ensures
            out == self.spec_to_ref(),
            Self::spec_deref(out) == *self,
            out.spec_len() == self.spec_len(),
    ;

    /// Converts the heterogenous list into heterogenous list of mutable
    /// references.
    ///
    /// Each element of the list is converted into its mutable reference, in
    /// the same order the list has.
    fn to_mut(&'a mut self) -> (out: Self::RefMut)
        ensures
            Self::spec_current(out) == *old(self),
            out.spec_len() == old(self).spec_len(),
    ;
}

impl<'a> ToRef<'a> for Nil {
    type Ref = Nil;

    type RefMut = Nil;

    open spec fn spec_to_ref(&'a self) -> Nil {
        Nil
    }

    open spec fn spec_deref(refs: Nil) -> Nil {
        Nil
    }

    open spec fn spec_current(refs: Nil) -> Nil {
        Nil
    }

    fn to_ref(&'a self) -> (out: Nil) {
        *self
    }

    fn to_mut(&'a mut self) -> (out: Nil) {
        Nil
    }
}

impl<'a, Head, Tail> ToRef<'a> for Cons<Head, Tail> where Head: 'a, Tail: ToRef<'a> {
    type Ref = Cons<&'a Head, Tail::Ref>;

    type RefMut = Cons<&'a mut Head, Tail::RefMut>;

    open spec fn spec_to_ref(&'a self) -> Self::Ref {
        Cons(&self.0, self.1.spec_to_ref())
    }

    open spec fn spec_deref(refs: Self::Ref) -> Self {
        Cons(*refs.0, Tail::spec_deref(refs.1))
    }

    open spec fn spec_current(refs: Self::RefMut) -> Self {
        Cons(*refs.0, Tail::spec_current(refs.1))
    }

    fn to_ref(&'a self) -> (out: Self::Ref) {
        let Cons(head, tail) = self;
        let tail = tail.to_ref();
        Cons(head, tail)
    }

    /// What is written through the first reference replaces the head, and
    /// the other references are those of the tail: what is written through
    /// them replaces the elements of the tail as the tail's own `to_mut`
    /// says.
    fn to_mut(&'a mut self) -> (out: Self::RefMut)
        ensures
            final(self).0 == *final(out.0),
            exists|tail: &mut Tail|
                *tail == old(self).1 && *final(tail) == final(self).1 && call_ensures(
                    <Tail as ToRef<'a>>::to_mut,
                    (tail,),
                    out.1,
                ),
    {
        let Cons(head, tail) = self;
        let tail = tail.to_mut();
        Cons(head, tail)
    }
}

} // verus!
