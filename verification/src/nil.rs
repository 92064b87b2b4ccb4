use crate::Nil;
use vstd::prelude::*;

verus! {

impl Nil {
    /// Length (count of elements) of the heterogenous list.
    ///
    /// For [`Nil`], this is always `0`.
    pub const LEN: usize = 0;

    /// Constructs a new empty heterogenous list.
    pub fn new() -> (out: Self)
        ensures
            out == Nil,
    {
        Self
    }

    /// Returns the length (count of elements) of the heterogenous list.
    ///
    /// For [`Nil`], this is always `0`.
    pub fn len(&self) -> (n: usize)
        ensures
            n == 0,
            n == crate::HList::spec_len(self),
    {
        Self::LEN
    }

    /// Checks if the heterogenous list is empty.
    ///
    /// For [`Nil`], this is always `true`.
    pub fn is_empty(&self) -> (empty: bool)
        ensures
            empty,
    {
        true
    }
}

impl AsRef<Nil> for Nil {
    fn as_ref(&self) -> (out: &Nil)
        ensures
            *out == *self,
    {
        self
    }
}

impl AsMut<Nil> for Nil {
    fn as_mut(&mut self) -> (out: &mut Nil)
        ensures
            *out == *old(self),
            *final(self) == *final(out),
    {
        self
    }
}

} // verus!
