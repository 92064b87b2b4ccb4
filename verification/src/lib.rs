//! Heterogenous lists: lists whose elements may each have a type of their own.
//!
//! An empty list is [`Nil`]; a non-empty list is a [`Cons`] of its first
//! element and the list of the elements that follow. The list of an integer,
//! a boolean and a string is `Cons(1, Cons(true, Cons("one", Nil)))`, of type
//! `Cons<i32, Cons<bool, Cons<&str, Nil>>>`.
//!
//! Every operation is a trait that is implemented once for [`Nil`] and once
//! for [`Cons`] in terms of its tail, so it is resolved from the shape of the
//! list alone. Beside each operation stands a specification function that
//! says, by the same recursion over the shape, what the operation returns;
//! its contract equates the two, and the laws that relate operations to each
//! other are proved from those functions.

use vstd::prelude::*;

mod cons;
pub mod convert;
pub mod iter;
mod nil;
pub mod ops;
mod sealed;
pub mod tuple;

verus! {

/// An empty heterogenous list.
#[derive(Debug, PartialEq, Eq, PartialOrd, Ord, Clone, Copy, Hash, Default)]
pub struct Nil;

/// Heterogenous list with a head value and a tail, where the tail is another
/// heterogenous list.
#[derive(Debug, PartialEq, Eq, PartialOrd, Ord, Clone, Copy, Hash, Default)]
pub struct Cons<Head, Tail>(pub Head, pub Tail);

/// A heterogenous list: either [`Nil`], or a [`Cons`] whose tail is a list.
///
/// This trait is sealed: it is implemented for [`Nil`] and [`Cons`] only.
pub trait HList: Sized + sealed::Sealed {
    /// The number of elements of the list: the number of [`Cons`] cells that
    /// stand before its [`Nil`].
    spec fn spec_len(&self) -> nat;

    /// Returns the length (count of elements) of the heterogenous list.
    fn len(&self) -> (n: usize)
        requires
            self.spec_len() <= usize::MAX,
        ensures
            n == self.spec_len(),
    ;

    /// Checks if the heterogenous list is empty.
    fn is_empty(&self) -> (empty: bool)
        ensures
            empty == (self.spec_len() == 0),
    ;
}

impl HList for Nil {
    open spec fn spec_len(&self) -> nat {
        0
    }

    fn len(&self) -> (n: usize) {
        0
    }

    fn is_empty(&self) -> (empty: bool) {
        true
    }
}

impl<Head, Tail> HList for Cons<Head, Tail> where Tail: HList {
    open spec fn spec_len(&self) -> nat {
        1 + self.1.spec_len()
    }

    fn len(&self) -> (n: usize) {
        let Cons(_, tail) = self;
        1 + tail.len()
    }

    fn is_empty(&self) -> (empty: bool) {
        false
    }
}

/// Heterogenous list with length (count of elements) known from its type.
pub trait Len: HList {
    /// Length (count of elements) of the heterogenous list.
    const LEN: usize;

    /// The length known from the type is the number of elements of every
    /// list of that type, as long as that number fits in a `usize`.
    proof fn lemma_len(&self)
        requires
            self.spec_len() <= usize::MAX,
        ensures
            Self::LEN == self.spec_len(),
    ;
}

impl Len for Nil {
    const LEN: usize = 0;

    proof fn lemma_len(&self) {
    }
}

impl<Head, Tail> Len for Cons<Head, Tail> where Tail: Len {
    const LEN: usize = 1 + Tail::LEN;

    proof fn lemma_len(&self) {
        self.1.lemma_len();
    }
}

} // verus!
