use super::Index;
use crate::{Cons, HList, Nil};
use vstd::prelude::*;

verus! {

/// Type of index which is used to index many elements of the heterogenous
/// list: a heterogenous list whose elements are all indices.
pub trait ManyIndex: HList + Default {
    /// The numbers that the indices of the list stand for, in order.
    spec fn spec_values() -> Seq<nat>;

    /// There is one number for each index of the list.
    proof fn lemma_values_len(&self)
        ensures
            Self::spec_values().len() == self.spec_len(),
    ;
}

impl ManyIndex for Nil {
    open spec fn spec_values() -> Seq<nat> {
        Seq::empty()
    }

    proof fn lemma_values_len(&self) {
    }
}

impl<Head, Tail> ManyIndex for Cons<Head, Tail> where Head: Index, Tail: ManyIndex {
    open spec fn spec_values() -> Seq<nat> {
        seq![Head::spec_value()] + Tail::spec_values()
    }

    proof fn lemma_values_len(&self) {
        self.1.lemma_values_len();
    }
}

} // verus!
