use super::sealed::Sealed;
use super::{Here, There};
use vstd::prelude::*;

verus! {

/// Type of index which is used in all indexing operations of the crate.
///
/// This trait is sealed: it is implemented for [`Here`] and [`There`] only.
pub trait Index: Default + Sealed {
    /// The number that an index of this type stands for: how many [`There`]
    /// are wrapped around its [`Here`].
    spec fn spec_value() -> nat;

    /// The index of this type.
    spec fn spec_index() -> Self;

    /// An index holds no data: every value of an index type is the same.
    proof fn lemma_one_value(self)
        ensures
            self == Self::spec_index(),
    ;
}

impl Index for Here {
    open spec fn spec_value() -> nat {
        0
    }

    open spec fn spec_index() -> Here {
        Here
    }

    proof fn lemma_one_value(self) {
    }
}

impl<T> Index for There<T> where T: Index {
    open spec fn spec_value() -> nat {
        T::spec_value() + 1
    }

    open spec fn spec_index() -> There<T> {
        There::spec_new()
    }

    proof fn lemma_one_value(self) {
        self.lemma_is_new();
    }
}

/// The number that `index` stands for.
pub open spec fn value_of<I: Index>(index: I) -> nat {
    I::spec_value()
}

/// Type of index which can be incremented.
pub trait Inc: Index {
    /// Result type of incrementing operation.
    type Output: Dec;

    /// Increments the index: the result stands for the number after the one
    /// that `self` stands for.
    fn inc(self) -> (out: Self::Output)
        ensures
            out == Self::Output::spec_index(),
            value_of(out) == value_of(self) + 1,
    ;
}

impl<T> Inc for T where T: Index {
    type Output = There<T>;

    fn inc(self) -> (out: There<T>) {
        There::new()
    }
}

/// Type of index which can be decremented.
///
/// [`Here`] stands for zero and cannot be decremented: it does not implement
/// this trait.
pub trait Dec: Index {
    /// Result type of decrementing operation: an index, which as every
    /// index can be incremented again.
    type Output: Index;

    /// Decrements the index: the result stands for the number before the one
    /// that `self` stands for.
    fn dec(self) -> (out: Self::Output)
        ensures
            out == Self::Output::spec_index(),
            value_of(out) + 1 == value_of(self),
    ;
}

impl<T> Dec for There<T> where T: Index {
    type Output = T;

    fn dec(self) -> (out: T) {
        let out: T = Default::default();
        proof {
            out.lemma_one_value();
        }
        out
    }
}

} // verus!
