use super::{Dec, Here, There};
use core::cmp::Ordering;
use vstd::prelude::*;
use vstd::std_specs::cmp::{PartialEqSpec, PartialEqSpecImpl, PartialOrdSpec, PartialOrdSpecImpl};

verus! {

/// How the number `left` stands to the number `right`.
pub open spec fn order_of(left: nat, right: nat) -> Ordering {
    if left < right {
        Ordering::Less
    } else if left == right {
        Ordering::Equal
    } else {
        Ordering::Greater
    }
}

impl PartialEq<Here> for Here {
    fn eq(&self, _other: &Here) -> (r: bool) {
        true
    }
}

impl PartialEqSpecImpl<Here> for Here {
    open spec fn obeys_eq_spec() -> bool {
        true
    }

    open spec fn eq_spec(&self, other: &Here) -> bool {
        true
    }
}

impl<T> PartialEq<There<T>> for Here where T: super::Index {
    fn eq(&self, _other: &There<T>) -> (r: bool) {
        false
    }
}

impl<T> PartialEqSpecImpl<There<T>> for Here where T: super::Index {
    open spec fn obeys_eq_spec() -> bool {
        true
    }

    open spec fn eq_spec(&self, other: &There<T>) -> bool {
        false
    }
}

impl<T> PartialEq<Here> for There<T> where T: super::Index {
    fn eq(&self, _other: &Here) -> (r: bool) {
        false
    }
}

impl<T> PartialEqSpecImpl<Here> for There<T> where T: super::Index {
    open spec fn obeys_eq_spec() -> bool {
        true
    }

    open spec fn eq_spec(&self, other: &Here) -> bool {
        false
    }
}

impl<T, U> PartialEq<There<T>> for There<U> where T: super::Index, U: super::Index + PartialEq<T> {
    fn eq(&self, other: &There<T>) -> (r: bool) {
        self.dec() == other.dec()
    }
}

impl<T, U> PartialEqSpecImpl<There<T>> for There<U> where T: super::Index, U: super::Index + PartialEq<T> {
    open spec fn obeys_eq_spec() -> bool {
        U::obeys_eq_spec()
    }

    open spec fn eq_spec(&self, other: &There<T>) -> bool {
        U::spec_index().eq_spec(&T::spec_index())
    }
}

impl<T> Eq for There<T> where T: super::Index + PartialEq<T> {

}

impl PartialOrd<Here> for Here {
    fn partial_cmp(&self, _other: &Here) -> (r: Option<Ordering>) {
        Some(Ordering::Equal)
    }
}

impl PartialOrdSpecImpl<Here> for Here {
    open spec fn obeys_partial_cmp_spec() -> bool {
        true
    }

    open spec fn partial_cmp_spec(&self, other: &Here) -> Option<Ordering> {
        Some(Ordering::Equal)
    }
}

impl<T> PartialOrd<There<T>> for Here where T: super::Index {
    fn partial_cmp(&self, _other: &There<T>) -> (r: Option<Ordering>) {
        Some(Ordering::Less)
    }
}

impl<T> PartialOrdSpecImpl<There<T>> for Here where T: super::Index {
    open spec fn obeys_partial_cmp_spec() -> bool {
        true
    }

    open spec fn partial_cmp_spec(&self, other: &There<T>) -> Option<Ordering> {
        Some(Ordering::Less)
    }
}

impl<T> PartialOrd<Here> for There<T> where T: super::Index {
    fn partial_cmp(&self, _other: &Here) -> (r: Option<Ordering>) {
        Some(Ordering::Greater)
    }
}

impl<T> PartialOrdSpecImpl<Here> for There<T> where T: super::Index {
    open spec fn obeys_partial_cmp_spec() -> bool {
        true
    }

    open spec fn partial_cmp_spec(&self, other: &Here) -> Option<Ordering> {
        Some(Ordering::Greater)
    }
}

impl<T, U> PartialOrd<There<T>> for There<U> where T: super::Index, U: super::Index + PartialOrd<T> {
    fn partial_cmp(&self, other: &There<T>) -> (r: Option<Ordering>) {
        let this = self.dec();
        let other = other.dec();
        this.partial_cmp(&other)
    }
}

impl<T, U> PartialOrdSpecImpl<There<T>> for There<U> where T: super::Index, U: super::Index + PartialOrd<T> {
    open spec fn obeys_partial_cmp_spec() -> bool {
        U::obeys_partial_cmp_spec()
    }

    open spec fn partial_cmp_spec(&self, other: &There<T>) -> Option<Ordering> {
        U::spec_index().partial_cmp_spec(&T::spec_index())
    }
}

/// Pairs of index types that compare as the numbers that they stand for:
/// proved for [`Here`] and [`There`] in every combination, two [`There`]
/// from the indices inside them.
pub trait IndexOrder<T>: super::Index + PartialOrd<T> where T: super::Index {
    /// Two indices are equal where they stand for the same number, and the
    /// first is less than the second where it stands for a lesser number.
    proof fn lemma_order(self, other: T)
        ensures
            Self::obeys_eq_spec(),
            Self::obeys_partial_cmp_spec(),
            self.eq_spec(&other) == (Self::spec_value() == T::spec_value()),
            self.partial_cmp_spec(&other) == Some(order_of(Self::spec_value(), T::spec_value())),
    ;
}

impl IndexOrder<Here> for Here {
    proof fn lemma_order(self, other: Here) {
    }
}

impl<T> IndexOrder<There<T>> for Here where T: super::Index {
    proof fn lemma_order(self, other: There<T>) {
    }
}

impl<T> IndexOrder<Here> for There<T> where T: super::Index {
    proof fn lemma_order(self, other: Here) {
    }
}

impl<T, U> IndexOrder<There<T>> for There<U> where T: super::Index, U: IndexOrder<T> {
    proof fn lemma_order(self, other: There<T>) {
        U::spec_index().lemma_order(T::spec_index());
    }
}

} // verus!
