use vstd::prelude::*;

verus! {

/// A value made of two parts, a first and a second.
pub trait Pair: Sized {
    /// Type of the first part.
    type First;

    /// Type of the second part.
    type Second;

    /// The two parts of the value, in order.
    spec fn spec_destruct(self) -> (Self::First, Self::Second);

    /// Takes the value apart into its first and second part.
    fn destruct(self) -> (out: (Self::First, Self::Second))
        ensures
            out == self.spec_destruct(),
    ;
}

impl<First, Second> Pair for (First, Second) {
    type First = First;

    type Second = Second;

    open spec fn spec_destruct(self) -> (First, Second) {
        self
    }

    #[inline(always)]
    fn destruct(self) -> (out: (First, Second)) {
        self
    }
}

} // verus!
