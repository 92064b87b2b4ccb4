use super::{ManyIndex, RemoveMany, ToRef};
use crate::HList;
use vstd::prelude::*;

verus! {

/// Retrieve many elements from the heterogenous list by type.
///
/// Unlike [`Get`](crate::ops::Get), it can hand out several mutable
/// references at once. The type of the list to retrieve has to be named in
/// the call.
pub trait GetMany<'a, T, I>: HList + ToRef<'a> where
    T: ToRef<'a>,
    I: ManyIndex,
    <Self as ToRef<'a>>::Ref: RemoveMany<T::Ref, I>,
    <Self as ToRef<'a>>::RefMut: RemoveMany<T::RefMut, I>,
 {
    /// Retrieves a heterogenous list of references to the elements of the
    /// heterogenous list by type.
    ///
    /// The references are those that removing by the index takes out of the
    /// list of references to all elements: they come in the order in which
    /// they are asked for.
    fn get_many(&'a self) -> (out: T::Ref)
        ensures
            out == self.spec_to_ref().spec_remove_many().0,
    ;

    /// Retrieves a heterogenous list of mutable references to the elements
    /// of the heterogenous list by type.
    ///
    /// The references are those that removing by the index takes out of
    /// the list of mutable references to all elements that
    /// [`ToRef::to_mut`] returns; the references that are not asked for are
    /// given up unused.
    fn get_many_mut(&'a mut self) -> (out: T::RefMut)
        ensures
            exists|all: <Self as ToRef<'a>>::RefMut|
                Self::spec_current(all) == *old(self) && out == all.spec_remove_many().0,
            exists|all: <Self as ToRef<'a>>::RefMut, list: &mut Self|
                *list == *old(self) && *final(list) == *final(self) && call_ensures(
                    <Self as ToRef<'a>>::to_mut,
                    (list,),
                    all,
                ) && out == all.spec_remove_many().0 && has_resolved(all.spec_remove_many().1),
    ;
}

impl<'a, L, T, I> GetMany<'a, T, I> for L where
    T: ToRef<'a>,
    L: ToRef<'a>,
    I: ManyIndex,
    L::Ref: RemoveMany<T::Ref, I>,
    L::RefMut: RemoveMany<T::RefMut, I>,
 {
    fn get_many(&'a self) -> (out: T::Ref) {
        let refs = self.to_ref();
        let (many, _) = refs.remove_many();
        many
    }

    fn get_many_mut(&'a mut self) -> (out: T::RefMut) {
        let muts = self.to_mut();
        let (many_mut, _) = muts.remove_many();
        many_mut
    }
}

} // verus!
