use core::marker::PhantomData;
use vstd::prelude::*;

verus! {

/// Index which points to the head of the heterogenous list.
///
/// It stands for the number `0`.
#[derive(Debug, Default, Clone, Copy, Eq, Ord, Hash)]
pub struct Here;

/// Index which points into the tail of the heterogenous list.
///
/// It stands for the number `T + 1`: the position that `T` points to in the
/// tail.
#[derive(Debug, Hash)]
pub struct There<T> {
    phantom: PhantomData<T>,
}

impl<T> There<T> {
    /// The one value of this type.
    pub closed spec fn spec_new() -> Self {
        There { phantom: PhantomData }
    }

    /// Creates new index which stands for the number `T + 1`.
    pub fn new() -> (out: Self)
        ensures
            out == Self::spec_new(),
    {
        let phantom = PhantomData;
        Self { phantom }
    }

    /// Every value of this type is the one that [`There::new`] returns.
    pub proof fn lemma_is_new(self)
        ensures
            self == Self::spec_new(),
    {
    }
}

impl<T> Clone for There<T> {
    fn clone(&self) -> (out: Self)
        ensures
            out == *self,
    {
        *self
    }
}

impl<T> Copy for There<T> {

}

impl<T> Default for There<T> {
    fn default() -> (out: Self)
        ensures
            out == Self::spec_new(),
    {
        Self::new()
    }
}

} // verus!
