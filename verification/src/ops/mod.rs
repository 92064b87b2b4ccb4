//! Operations defined for heterogenous lists.

pub use self::append::Append;
pub use self::extend::Extend;
pub use self::flatten::Flatten;
pub use self::fold::{
    lemma_fold_all_ensures, lemma_fold_all_requires, lemma_fold_each_ensures,
    lemma_fold_each_requires, lemma_rfold_all_ensures, lemma_rfold_all_requires,
    lemma_rfold_all_with_folder_ensures, lemma_rfold_each_ensures, lemma_rfold_each_requires,
    Fold, FoldFn, Folder, RFold, RFoldWithFolder,
};
pub use self::get::Get;
pub use self::homogenous::{
    lemma_prepend_seq, lemma_reverse_seq, AppendSeq, ExtendSeq, FromVecSeq, GetSeq, Homogenous,
    PopSeq, PrepareIterSeq, RemoveSeq, RewindSeq, ZipSeq,
};
pub use self::get_many::GetMany;
pub use self::index::{
    order_of, value_of, Dec, Here, Inc, Index, IndexDifference, IndexOrder, IndexSum, ManyIndex,
    There,
};
pub use self::map::{MapFn, MapList, Mapper};
pub use self::pair::Pair;
pub use self::pop::{AppendThenPop, Pop, PopThenAppend};
pub use self::pop_front::{lemma_prepend_then_pop_front, PopFront};
pub use self::prepend::Prepend;
pub use self::provide::{Provide, ProvideOnce};
pub use self::remove::Remove;
pub use self::remove_many::RemoveMany;
pub use self::reverse::{lemma_reverse_twice, Reverse, Rewind, RewindTwice};
pub use self::shuffle::Shuffle;
pub use self::to_mut::ToMut;
pub use self::to_ref::ToRef;
pub use self::unzip::{Unzip, UnzipThenZip, ZipThenUnzip};
pub use self::zip::Zip;

mod append;
mod extend;
mod flatten;
mod fold;
mod get;
mod get_many;
mod homogenous;
mod index;
mod map;
mod pair;
mod pop;
mod pop_front;
mod prepend;
mod provide;
mod remove;
mod remove_many;
mod reverse;
mod shuffle;
mod to_mut;
mod to_ref;
mod unzip;
mod zip;
