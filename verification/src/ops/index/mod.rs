//! Indices that say at which position of a heterogenous list an element of a
//! given type stands, for lists that hold that type more than once.

pub use self::many::ManyIndex;
pub use self::ops::{IndexDifference, IndexSum};
pub use self::order::{order_of, IndexOrder};
pub use self::traits::{value_of, Dec, Inc, Index};
pub use self::types::{Here, There};

mod many;
mod ops;
mod order;
mod sealed;
mod traits;
mod types;
