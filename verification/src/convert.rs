//! Traits for conversion from and into heterogenous list types.
//!
//! They can be implemented for any struct, because any struct can be
//! represented as a heterogenous list of its fields. Here they are
//! implemented for heterogenous lists themselves and for tuples of twelve
//! parts or fewer.

use crate::tuple::IntoTuple;
use crate::{Cons, HList, Nil};
use vstd::prelude::*;

verus! {

/// Used to convert heterogenous list into a value of another type.
/// It is the reciprocal of [`IntoHList`].
///
/// Similar to [`From`] trait, but uses associated type instead of generic
/// parameter.
pub trait FromHList: Sized {
    /// Type of heterogenous list from which conversion will be performed.
    type HList: HList;

    /// The value that the heterogenous list converts into.
    spec fn spec_from_hlist(hlist: Self::HList) -> Self;

    /// Converts heterogenous list into a value.
    fn from_hlist(hlist: Self::HList) -> (out: Self)
        ensures
            out == Self::spec_from_hlist(hlist),
    ;
}

impl<T> FromHList for T where T: HList {
    type HList = T;

    open spec fn spec_from_hlist(hlist: T) -> T {
        hlist
    }

    fn from_hlist(hlist: T) -> (out: T) {
        hlist
    }
}

/// Used to convert value of some type into heterogenous list.
/// The opposite of [`FromHList`].
///
/// Similar to [`Into`] trait, but uses associated type instead of generic
/// parameter.
pub trait IntoHList: Sized {
    /// Type of heterogenous list value of some type will be converted to.
    type HList: HList;

    /// The heterogenous list that the value converts into.
    spec fn spec_into_hlist(self) -> Self::HList;

    /// Converts self into heterogenous list.
    fn into_hlist(self) -> (out: Self::HList)
        ensures
            out == self.spec_into_hlist(),
    ;
}

impl<T> IntoHList for T where T: HList {
    type HList = T;

    open spec fn spec_into_hlist(self) -> T {
        self
    }

    fn into_hlist(self) -> (out: T) {
        self
    }
}

impl FromHList for () {
    type HList = Nil;

    open spec fn spec_from_hlist(hlist: Nil) -> Self {
        ()
    }

    fn from_hlist(hlist: Nil) -> (out: Self) {
        hlist.into_tuple()
    }
}

impl IntoHList for () {
    type HList = Nil;

    open spec fn spec_into_hlist(self) -> Nil {
        Nil
    }

    fn into_hlist(self) -> (out: Nil) {
        crate::tuple::IntoHList::into_hlist(self)
    }
}

impl<A> FromHList for (A,) {
    type HList = Cons<A, Nil>;

    open spec fn spec_from_hlist(hlist: Cons<A, Nil>) -> Self {
        (hlist.0,)
    }

    fn from_hlist(hlist: Cons<A, Nil>) -> (out: Self) {
        hlist.into_tuple()
    }
}

impl<A> IntoHList for (A,) {
    type HList = Cons<A, Nil>;

    open spec fn spec_into_hlist(self) -> Cons<A, Nil> {
        Cons(self.0, Nil)
    }

    fn into_hlist(self) -> (out: Cons<A, Nil>) {
        crate::tuple::IntoHList::into_hlist(self)
    }
}

impl<A, B> FromHList for (A, B) {
    type HList = Cons<A, Cons<B, Nil>>;

    open spec fn spec_from_hlist(hlist: Cons<A, Cons<B, Nil>>) -> Self {
        (hlist.0, hlist.1.0)
    }

    fn from_hlist(hlist: Cons<A, Cons<B, Nil>>) -> (out: Self) {
        hlist.into_tuple()
    }
}

impl<A, B> IntoHList for (A, B) {
    type HList = Cons<A, Cons<B, Nil>>;

    open spec fn spec_into_hlist(self) -> Cons<A, Cons<B, Nil>> {
        Cons(self.0, Cons(self.1, Nil))
    }

    fn into_hlist(self) -> (out: Cons<A, Cons<B, Nil>>) {
        crate::tuple::IntoHList::into_hlist(self)
    }
}

impl<A, B, C> FromHList for (A, B, C) {
    type HList = Cons<A, Cons<B, Cons<C, Nil>>>;

    open spec fn spec_from_hlist(hlist: Cons<A, Cons<B, Cons<C, Nil>>>) -> Self {
        (hlist.0, hlist.1.0, hlist.1.1.0)
    }

    fn from_hlist(hlist: Cons<A, Cons<B, Cons<C, Nil>>>) -> (out: Self) {
        hlist.into_tuple()
    }
}

impl<A, B, C> IntoHList for (A, B, C) {
    type HList = Cons<A, Cons<B, Cons<C, Nil>>>;

    open spec fn spec_into_hlist(self) -> Cons<A, Cons<B, Cons<C, Nil>>> {
        Cons(self.0, Cons(self.1, Cons(self.2, Nil)))
    }

    fn into_hlist(self) -> (out: Cons<A, Cons<B, Cons<C, Nil>>>) {
        crate::tuple::IntoHList::into_hlist(self)
    }
}

impl<A, B, C, D> FromHList for (A, B, C, D) {
    type HList = Cons<A, Cons<B, Cons<C, Cons<D, Nil>>>>;

    open spec fn spec_from_hlist(hlist: Cons<A, Cons<B, Cons<C, Cons<D, Nil>>>>) -> Self {
        (hlist.0, hlist.1.0, hlist.1.1.0, hlist.1.1.1.0)
    }

    fn from_hlist(hlist: Cons<A, Cons<B, Cons<C, Cons<D, Nil>>>>) -> (out: Self) {
        hlist.into_tuple()
    }
}

impl<A, B, C, D> IntoHList for (A, B, C, D) {
    type HList = Cons<A, Cons<B, Cons<C, Cons<D, Nil>>>>;

    open spec fn spec_into_hlist(self) -> Cons<A, Cons<B, Cons<C, Cons<D, Nil>>>> {
        Cons(self.0, Cons(self.1, Cons(self.2, Cons(self.3, Nil))))
    }

    fn into_hlist(self) -> (out: Cons<A, Cons<B, Cons<C, Cons<D, Nil>>>>) {
        crate::tuple::IntoHList::into_hlist(self)
    }
}

impl<A, B, C, D, E> FromHList for (A, B, C, D, E) {
    type HList = Cons<A, Cons<B, Cons<C, Cons<D, Cons<E, Nil>>>>>;

    open spec fn spec_from_hlist(hlist: Cons<A, Cons<B, Cons<C, Cons<D, Cons<E, Nil>>>>>) -> Self {
        (hlist.0, hlist.1.0, hlist.1.1.0, hlist.1.1.1.0, hlist.1.1.1.1.0)
    }

    fn from_hlist(hlist: Cons<A, Cons<B, Cons<C, Cons<D, Cons<E, Nil>>>>>) -> (out: Self) {
        hlist.into_tuple()
    }
}

impl<A, B, C, D, E> IntoHList for (A, B, C, D, E) {
    type HList = Cons<A, Cons<B, Cons<C, Cons<D, Cons<E, Nil>>>>>;

    open spec fn spec_into_hlist(self) -> Cons<A, Cons<B, Cons<C, Cons<D, Cons<E, Nil>>>>> {
        Cons(self.0, Cons(self.1, Cons(self.2, Cons(self.3, Cons(self.4, Nil)))))
    }

    fn into_hlist(self) -> (out: Cons<A, Cons<B, Cons<C, Cons<D, Cons<E, Nil>>>>>) {
        crate::tuple::IntoHList::into_hlist(self)
    }
}

impl<A, B, C, D, E, F> FromHList for (A, B, C, D, E, F) {
    type HList = Cons<A, Cons<B, Cons<C, Cons<D, Cons<E, Cons<F, Nil>>>>>>;

    open spec fn spec_from_hlist(hlist: Cons<A, Cons<B, Cons<C, Cons<D, Cons<E, Cons<F, Nil>>>>>>) -> Self {
        (hlist.0, hlist.1.0, hlist.1.1.0, hlist.1.1.1.0, hlist.1.1.1.1.0, hlist.1.1.1.1.1.0)
    }

    fn from_hlist(hlist: Cons<A, Cons<B, Cons<C, Cons<D, Cons<E, Cons<F, Nil>>>>>>) -> (out: Self) {
        hlist.into_tuple()
    }
}

impl<A, B, C, D, E, F> IntoHList for (A, B, C, D, E, F) {
    type HList = Cons<A, Cons<B, Cons<C, Cons<D, Cons<E, Cons<F, Nil>>>>>>;

    open spec fn spec_into_hlist(self) -> Cons<A, Cons<B, Cons<C, Cons<D, Cons<E, Cons<F, Nil>>>>>> {
        Cons(self.0, Cons(self.1, Cons(self.2, Cons(self.3, Cons(self.4, Cons(self.5, Nil))))))
    }

    fn into_hlist(self) -> (out: Cons<A, Cons<B, Cons<C, Cons<D, Cons<E, Cons<F, Nil>>>>>>) {
        crate::tuple::IntoHList::into_hlist(self)
    }
}

impl<A, B, C, D, E, F, G> FromHList for (A, B, C, D, E, F, G) {
    type HList = Cons<A, Cons<B, Cons<C, Cons<D, Cons<E, Cons<F, Cons<G, Nil>>>>>>>;

    open spec fn spec_from_hlist(hlist: Cons<A, Cons<B, Cons<C, Cons<D, Cons<E, Cons<F, Cons<G, Nil>>>>>>>) -> Self {
        (hlist.0, hlist.1.0, hlist.1.1.0, hlist.1.1.1.0, hlist.1.1.1.1.0, hlist.1.1.1.1.1.0, hlist.1.1.1.1.1.1.0)
    }

    fn from_hlist(hlist: Cons<A, Cons<B, Cons<C, Cons<D, Cons<E, Cons<F, Cons<G, Nil>>>>>>>) -> (out: Self) {
        hlist.into_tuple()
    }
}

impl<A, B, C, D, E, F, G> IntoHList for (A, B, C, D, E, F, G) {
    type HList = Cons<A, Cons<B, Cons<C, Cons<D, Cons<E, Cons<F, Cons<G, Nil>>>>>>>;

    open spec fn spec_into_hlist(self) -> Cons<A, Cons<B, Cons<C, Cons<D, Cons<E, Cons<F, Cons<G, Nil>>>>>>> {
        Cons(self.0, Cons(self.1, Cons(self.2, Cons(self.3, Cons(self.4, Cons(self.5, Cons(self.6, Nil)))))))
    }

    fn into_hlist(self) -> (out: Cons<A, Cons<B, Cons<C, Cons<D, Cons<E, Cons<F, Cons<G, Nil>>>>>>>) {
        crate::tuple::IntoHList::into_hlist(self)
    }
}

impl<A, B, C, D, E, F, G, H> FromHList for (A, B, C, D, E, F, G, H) {
    type HList = Cons<A, Cons<B, Cons<C, Cons<D, Cons<E, Cons<F, Cons<G, Cons<H, Nil>>>>>>>>;

    open spec fn spec_from_hlist(hlist: Cons<A, Cons<B, Cons<C, Cons<D, Cons<E, Cons<F, Cons<G, Cons<H, Nil>>>>>>>>) -> Self {
        (hlist.0, hlist.1.0, hlist.1.1.0, hlist.1.1.1.0, hlist.1.1.1.1.0, hlist.1.1.1.1.1.0, hlist.1.1.1.1.1.1.0, hlist.1.1.1.1.1.1.1.0)
    }

    fn from_hlist(hlist: Cons<A, Cons<B, Cons<C, Cons<D, Cons<E, Cons<F, Cons<G, Cons<H, Nil>>>>>>>>) -> (out: Self) {
        hlist.into_tuple()
    }
}

impl<A, B, C, D, E, F, G, H> IntoHList for (A, B, C, D, E, F, G, H) {
    type HList = Cons<A, Cons<B, Cons<C, Cons<D, Cons<E, Cons<F, Cons<G, Cons<H, Nil>>>>>>>>;

    open spec fn spec_into_hlist(self) -> Cons<A, Cons<B, Cons<C, Cons<D, Cons<E, Cons<F, Cons<G, Cons<H, Nil>>>>>>>> {
        Cons(self.0, Cons(self.1, Cons(self.2, Cons(self.3, Cons(self.4, Cons(self.5, Cons(self.6, Cons(self.7, Nil))))))))
    }

    fn into_hlist(self) -> (out: Cons<A, Cons<B, Cons<C, Cons<D, Cons<E, Cons<F, Cons<G, Cons<H, Nil>>>>>>>>) {
        crate::tuple::IntoHList::into_hlist(self)
    }
}

impl<A, B, C, D, E, F, G, H, I> FromHList for (A, B, C, D, E, F, G, H, I) {
    type HList = Cons<A, Cons<B, Cons<C, Cons<D, Cons<E, Cons<F, Cons<G, Cons<H, Cons<I, Nil>>>>>>>>>;

    open spec fn spec_from_hlist(hlist: Cons<A, Cons<B, Cons<C, Cons<D, Cons<E, Cons<F, Cons<G, Cons<H, Cons<I, Nil>>>>>>>>>) -> Self {
        (hlist.0, hlist.1.0, hlist.1.1.0, hlist.1.1.1.0, hlist.1.1.1.1.0, hlist.1.1.1.1.1.0, hlist.1.1.1.1.1.1.0, hlist.1.1.1.1.1.1.1.0, hlist.1.1.1.1.1.1.1.1.0)
    }

    fn from_hlist(hlist: Cons<A, Cons<B, Cons<C, Cons<D, Cons<E, Cons<F, Cons<G, Cons<H, Cons<I, Nil>>>>>>>>>) -> (out: Self) {
        hlist.into_tuple()
    }
}

impl<A, B, C, D, E, F, G, H, I> IntoHList for (A, B, C, D, E, F, G, H, I) {
    type HList = Cons<A, Cons<B, Cons<C, Cons<D, Cons<E, Cons<F, Cons<G, Cons<H, Cons<I, Nil>>>>>>>>>;

    open spec fn spec_into_hlist(self) -> Cons<A, Cons<B, Cons<C, Cons<D, Cons<E, Cons<F, Cons<G, Cons<H, Cons<I, Nil>>>>>>>>> {
        Cons(self.0, Cons(self.1, Cons(self.2, Cons(self.3, Cons(self.4, Cons(self.5, Cons(self.6, Cons(self.7, Cons(self.8, Nil)))))))))
    }

    fn into_hlist(self) -> (out: Cons<A, Cons<B, Cons<C, Cons<D, Cons<E, Cons<F, Cons<G, Cons<H, Cons<I, Nil>>>>>>>>>) {
        crate::tuple::IntoHList::into_hlist(self)
    }
}

impl<A, B, C, D, E, F, G, H, I, J> FromHList for (A, B, C, D, E, F, G, H, I, J) {
    type HList = Cons<A, Cons<B, Cons<C, Cons<D, Cons<E, Cons<F, Cons<G, Cons<H, Cons<I, Cons<J, Nil>>>>>>>>>>;

    open spec fn spec_from_hlist(hlist: Cons<A, Cons<B, Cons<C, Cons<D, Cons<E, Cons<F, Cons<G, Cons<H, Cons<I, Cons<J, Nil>>>>>>>>>>) -> Self {
        (hlist.0, hlist.1.0, hlist.1.1.0, hlist.1.1.1.0, hlist.1.1.1.1.0, hlist.1.1.1.1.1.0, hlist.1.1.1.1.1.1.0, hlist.1.1.1.1.1.1.1.0, hlist.1.1.1.1.1.1.1.1.0, hlist.1.1.1.1.1.1.1.1.1.0)
    }

    fn from_hlist(hlist: Cons<A, Cons<B, Cons<C, Cons<D, Cons<E, Cons<F, Cons<G, Cons<H, Cons<I, Cons<J, Nil>>>>>>>>>>) -> (out: Self) {
        hlist.into_tuple()
    }
}

impl<A, B, C, D, E, F, G, H, I, J> IntoHList for (A, B, C, D, E, F, G, H, I, J) {
    type HList = Cons<A, Cons<B, Cons<C, Cons<D, Cons<E, Cons<F, Cons<G, Cons<H, Cons<I, Cons<J, Nil>>>>>>>>>>;

    open spec fn spec_into_hlist(self) -> Cons<A, Cons<B, Cons<C, Cons<D, Cons<E, Cons<F, Cons<G, Cons<H, Cons<I, Cons<J, Nil>>>>>>>>>> {
        Cons(self.0, Cons(self.1, Cons(self.2, Cons(self.3, Cons(self.4, Cons(self.5, Cons(self.6, Cons(self.7, Cons(self.8, Cons(self.9, Nil))))))))))
    }

    fn into_hlist(self) -> (out: Cons<A, Cons<B, Cons<C, Cons<D, Cons<E, Cons<F, Cons<G, Cons<H, Cons<I, Cons<J, Nil>>>>>>>>>>) {
        crate::tuple::IntoHList::into_hlist(self)
    }
}

impl<A, B, C, D, E, F, G, H, I, J, K> FromHList for (A, B, C, D, E, F, G, H, I, J, K) {
    type HList = Cons<A, Cons<B, Cons<C, Cons<D, Cons<E, Cons<F, Cons<G, Cons<H, Cons<I, Cons<J, Cons<K, Nil>>>>>>>>>>>;

    open spec fn spec_from_hlist(hlist: Cons<A, Cons<B, Cons<C, Cons<D, Cons<E, Cons<F, Cons<G, Cons<H, Cons<I, Cons<J, Cons<K, Nil>>>>>>>>>>>) -> Self {
        (hlist.0, hlist.1.0, hlist.1.1.0, hlist.1.1.1.0, hlist.1.1.1.1.0, hlist.1.1.1.1.1.0, hlist.1.1.1.1.1.1.0, hlist.1.1.1.1.1.1.1.0, hlist.1.1.1.1.1.1.1.1.0, hlist.1.1.1.1.1.1.1.1.1.0, hlist.1.1.1.1.1.1.1.1.1.1.0)
    }

    fn from_hlist(hlist: Cons<A, Cons<B, Cons<C, Cons<D, Cons<E, Cons<F, Cons<G, Cons<H, Cons<I, Cons<J, Cons<K, Nil>>>>>>>>>>>) -> (out: Self) {
        hlist.into_tuple()
    }
}

impl<A, B, C, D, E, F, G, H, I, J, K> IntoHList for (A, B, C, D, E, F, G, H, I, J, K) {
    type HList = Cons<A, Cons<B, Cons<C, Cons<D, Cons<E, Cons<F, Cons<G, Cons<H, Cons<I, Cons<J, Cons<K, Nil>>>>>>>>>>>;

    open spec fn spec_into_hlist(self) -> Cons<A, Cons<B, Cons<C, Cons<D, Cons<E, Cons<F, Cons<G, Cons<H, Cons<I, Cons<J, Cons<K, Nil>>>>>>>>>>> {
        Cons(self.0, Cons(self.1, Cons(self.2, Cons(self.3, Cons(self.4, Cons(self.5, Cons(self.6, Cons(self.7, Cons(self.8, Cons(self.9, Cons(self.10, Nil)))))))))))
    }

    fn into_hlist(self) -> (out: Cons<A, Cons<B, Cons<C, Cons<D, Cons<E, Cons<F, Cons<G, Cons<H, Cons<I, Cons<J, Cons<K, Nil>>>>>>>>>>>) {
        crate::tuple::IntoHList::into_hlist(self)
    }
}

impl<A, B, C, D, E, F, G, H, I, J, K, L> FromHList for (A, B, C, D, E, F, G, H, I, J, K, L) {
    type HList = Cons<A, Cons<B, Cons<C, Cons<D, Cons<E, Cons<F, Cons<G, Cons<H, Cons<I, Cons<J, Cons<K, Cons<L, Nil>>>>>>>>>>>>;

    open spec fn spec_from_hlist(hlist: Cons<A, Cons<B, Cons<C, Cons<D, Cons<E, Cons<F, Cons<G, Cons<H, Cons<I, Cons<J, Cons<K, Cons<L, Nil>>>>>>>>>>>>) -> Self {
        (hlist.0, hlist.1.0, hlist.1.1.0, hlist.1.1.1.0, hlist.1.1.1.1.0, hlist.1.1.1.1.1.0, hlist.1.1.1.1.1.1.0, hlist.1.1.1.1.1.1.1.0, hlist.1.1.1.1.1.1.1.1.0, hlist.1.1.1.1.1.1.1.1.1.0, hlist.1.1.1.1.1.1.1.1.1.1.0, hlist.1.1.1.1.1.1.1.1.1.1.1.0)
    }

    fn from_hlist(hlist: Cons<A, Cons<B, Cons<C, Cons<D, Cons<E, Cons<F, Cons<G, Cons<H, Cons<I, Cons<J, Cons<K, Cons<L, Nil>>>>>>>>>>>>) -> (out: Self) {
        hlist.into_tuple()
    }
}

impl<A, B, C, D, E, F, G, H, I, J, K, L> IntoHList for (A, B, C, D, E, F, G, H, I, J, K, L) {
    type HList = Cons<A, Cons<B, Cons<C, Cons<D, Cons<E, Cons<F, Cons<G, Cons<H, Cons<I, Cons<J, Cons<K, Cons<L, Nil>>>>>>>>>>>>;

    open spec fn spec_into_hlist(self) -> Cons<A, Cons<B, Cons<C, Cons<D, Cons<E, Cons<F, Cons<G, Cons<H, Cons<I, Cons<J, Cons<K, Cons<L, Nil>>>>>>>>>>>> {
        Cons(self.0, Cons(self.1, Cons(self.2, Cons(self.3, Cons(self.4, Cons(self.5, Cons(self.6, Cons(self.7, Cons(self.8, Cons(self.9, Cons(self.10, Cons(self.11, Nil))))))))))))
    }

    fn into_hlist(self) -> (out: Cons<A, Cons<B, Cons<C, Cons<D, Cons<E, Cons<F, Cons<G, Cons<H, Cons<I, Cons<J, Cons<K, Cons<L, Nil>>>>>>>>>>>>) {
        crate::tuple::IntoHList::into_hlist(self)
    }
}
} // verus!
