use super::{Here, There};
use vstd::prelude::*;

verus! {

/// Closes the set of indices: only [`Here`] and [`There`] of a sealed index
/// implement it, and no other crate can add to them.
pub trait Sealed {

}

impl Sealed for Here {

}

impl<T> Sealed for There<T> where T: Sealed {

}

} // verus!
