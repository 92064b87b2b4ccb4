use super::{ManyIndex, RemoveMany};
use crate::{HList, Nil};
use vstd::prelude::*;

verus! {

/// Shuffle current heterogenous list, or change order of its elements.
///
/// The index says from where each element of the new list is taken, because
/// there may be more than one way if the types of the elements are not
/// unique. It has to take every element: nothing may remain.
pub trait Shuffle<T, I>: RemoveMany<T, I, Remainder = Nil> where T: HList, I: ManyIndex {
    /// Shuffles current heterogenous list, or changes order of its elements.
    ///
    /// The new list holds every element of the old one, in the order in
    /// which the index asks for them.
    fn shuffle(self) -> (out: T)
        ensures
            out == self.spec_remove_many().0,
            out.spec_len() == self.spec_len(),
            Self::spec_restore_many(out, Nil) == self,
    ;
}

impl<T, L, I> Shuffle<L, I> for T where L: HList, T: RemoveMany<L, I, Remainder = Nil>, I: ManyIndex {
    fn shuffle(self) -> (out: L) {
        proof {
            self.lemma_remove_many_then_restore();
        }
        let (list, _) = self.remove_many();
        list
    }
}

} // verus!
