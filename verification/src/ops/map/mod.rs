//! Transformation of every element of a heterogenous list.

pub use self::map::MapList;
pub use self::mapper::{MapFn, Mapper};

mod map;
mod mapper;
