use crate::{Cons, Nil};
use vstd::prelude::*;

verus! {

/// Closes the set of heterogenous lists: only [`Nil`] and [`Cons`] with a
/// sealed tail implement it, and no other crate can add to them.
pub trait Sealed {

}

impl Sealed for Nil {

}

impl<Head, Tail> Sealed for Cons<Head, Tail> where Tail: Sealed {

}

} // verus!
