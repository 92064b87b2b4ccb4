use super::{Dec, Here, There};
use crate::ops::Get;
use crate::{Cons, HList};
use core::ops::{Add, Sub};
use vstd::prelude::*;
use vstd::std_specs::ops::{AddSpec, AddSpecImpl, SubSpec, SubSpecImpl};

verus! {

impl<T> Add<T> for Here where T: super::Index {
    type Output = T;

    fn add(self, rhs: T) -> (out: T) {
        rhs
    }
}

impl<T> AddSpecImpl<T> for Here where T: super::Index {
    open spec fn obeys_add_spec() -> bool {
        true
    }

    open spec fn add_req(self, rhs: T) -> bool {
        true
    }

    open spec fn add_spec(self, rhs: T) -> T {
        rhs
    }
}

impl<T, U> Add<T> for There<U> where U: super::Index + Add<T>, U::Output: super::Index {
    type Output = There<U::Output>;

    fn add(self, _rhs: T) -> (out: There<U::Output>) {
        There::new()
    }
}

impl<T, U> AddSpecImpl<T> for There<U> where U: super::Index + Add<T>, U::Output: super::Index {
    open spec fn obeys_add_spec() -> bool {
        true
    }

    open spec fn add_req(self, rhs: T) -> bool {
        true
    }

    open spec fn add_spec(self, rhs: T) -> There<U::Output> {
        There::spec_new()
    }
}

/// Pairs of index types whose sum stands for the sum of the numbers that
/// they stand for: proved for [`Here`] and any index, and for [`There`] of
/// an index from that index.
pub trait IndexSum<T>: super::Index + Add<T> where T: super::Index, Self::Output: super::Index {
    /// Adding indices adds the numbers that they stand for.
    proof fn lemma_add_values()
        ensures
            <Self::Output as super::Index>::spec_value() == Self::spec_value() + T::spec_value(),
    ;
}

impl<T> IndexSum<T> for Here where T: super::Index {
    proof fn lemma_add_values() {
    }
}

impl<T, U> IndexSum<T> for There<U> where T: super::Index, U: IndexSum<T>, U::Output: super::Index {
    proof fn lemma_add_values() {
        U::lemma_add_values();
    }
}

impl Sub<Here> for Here {
    type Output = Here;

    fn sub(self, rhs: Here) -> (out: Here) {
        rhs
    }
}

impl SubSpecImpl<Here> for Here {
    open spec fn obeys_sub_spec() -> bool {
        true
    }

    open spec fn sub_req(self, rhs: Here) -> bool {
        true
    }

    open spec fn sub_spec(self, rhs: Here) -> Here {
        Here
    }
}

impl<T> Sub<Here> for There<T> where T: super::Index {
    type Output = There<T>;

    fn sub(self, _rhs: Here) -> (out: There<T>) {
        There::new()
    }
}

impl<T> SubSpecImpl<Here> for There<T> where T: super::Index {
    open spec fn obeys_sub_spec() -> bool {
        true
    }

    open spec fn sub_req(self, rhs: Here) -> bool {
        true
    }

    open spec fn sub_spec(self, rhs: Here) -> There<T> {
        There::spec_new()
    }
}

impl<T, U> Sub<There<T>> for There<U> where T: super::Index, U: super::Index + Sub<T> {
    type Output = U::Output;

    fn sub(self, rhs: There<T>) -> (out: U::Output) {
        self.dec() - rhs.dec()
    }
}

impl<T, U> SubSpecImpl<There<T>> for There<U> where T: super::Index, U: super::Index + Sub<T> {
    open spec fn obeys_sub_spec() -> bool {
        <U as SubSpec<T>>::obeys_sub_spec()
    }

    open spec fn sub_req(self, rhs: There<T>) -> bool {
        U::spec_index().sub_req(T::spec_index())
    }

    open spec fn sub_spec(self, rhs: There<T>) -> U::Output {
        U::spec_index().sub_spec(T::spec_index())
    }
}

/// Pairs of index types of which the second can be subtracted from the
/// first, and whose difference stands for the difference of the numbers that
/// they stand for: proved for any index and [`Here`], and for two [`There`]
/// from the indices inside them.
pub trait IndexDifference<T>: super::Index + Sub<T> where
    T: super::Index,
    Self::Output: super::Index,
 {
    /// Subtraction of the second index from the first is always allowed, its
    /// result is the index of the result type, and that index stands for the
    /// difference of the numbers.
    proof fn lemma_sub_values()
        ensures
            <Self as SubSpec<T>>::obeys_sub_spec(),
            Self::spec_index().sub_req(T::spec_index()),
            Self::spec_index().sub_spec(T::spec_index()) == <Self::Output as super::Index>::spec_index(),
            <Self::Output as super::Index>::spec_value() + T::spec_value() == Self::spec_value(),
    ;
}

impl IndexDifference<Here> for Here {
    proof fn lemma_sub_values() {
    }
}

impl<T> IndexDifference<Here> for There<T> where T: super::Index {
    proof fn lemma_sub_values() {
    }
}

impl<T, U> IndexDifference<There<T>> for There<U> where
    T: super::Index,
    U: IndexDifference<T>,
    U::Output: super::Index,
 {
    proof fn lemma_sub_values() {
        U::lemma_sub_values();
    }
}

/// Retrieves the first element of the heterogenous list.
///
/// This is the `list[index]` of unverified code. Verified code reaches the
/// same element, by the position alone, with `Get::<_, Here>::get`.
impl<Head, Tail> core::ops::Index<Here> for Cons<Head, Tail> where Tail: HList {
    type Output = Head;

    fn index(&self, _index: Here) -> (out: &Head)
        ensures
            *out == self.0,
    {
        let Cons(head, _) = self;
        head
    }
}

/// Retrieves the element of the tail that the index inside points to.
///
/// This is the `list[index]` of unverified code. Verified code reaches the
/// same element, by the position alone, with `Get::<_, There<TailIndex>>::get`.
impl<Head, Tail, TailIndex, Out> core::ops::Index<There<TailIndex>> for Cons<Head, Tail> where
    Tail: core::ops::Index<TailIndex, Output = Out> + Get<Out, TailIndex>,
    TailIndex: super::Index,
 {
    type Output = Out;

    fn index(&self, _index: There<TailIndex>) -> (out: &Out)
        ensures
            *out == self.1.spec_get(),
    {
        let Cons(_, tail) = self;
        tail.get()
    }
}

/// Retrieves the first element of the heterogenous list, to be written.
impl<Head, Tail> core::ops::IndexMut<Here> for Cons<Head, Tail> where Tail: HList {
    fn index_mut(&mut self, _index: Here) -> (out: &mut Head)
        ensures
            *out == old(self).0,
            *final(self) == Cons(*final(out), old(self).1),
    {
        &mut self.0
    }
}

/// Retrieves the element of the tail that the index inside points to, to be
/// written.
impl<Head, Tail, TailIndex, Out> core::ops::IndexMut<There<TailIndex>> for Cons<Head, Tail> where
    Tail: core::ops::IndexMut<TailIndex, Output = Out> + Get<Out, TailIndex>,
    TailIndex: super::Index,
 {
    fn index_mut(&mut self, _index: There<TailIndex>) -> (out: &mut Out)
        ensures
            *out == old(self).1.spec_get(),
            *final(self) == Cons(old(self).0, old(self).1.spec_set(*final(out))),
    {
        self.1.get_mut()
    }
}

} // verus!
