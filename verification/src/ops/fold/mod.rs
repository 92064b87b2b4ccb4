//! Folding of every element of a heterogenous list into an accumulator.

pub use self::folder::{FoldFn, Folder};
pub use self::left::{
    lemma_fold_all_ensures, lemma_fold_all_requires, lemma_fold_each_ensures,
    lemma_fold_each_requires, Fold,
};
pub use self::right::{
    lemma_rfold_all_ensures, lemma_rfold_all_requires, lemma_rfold_all_with_folder_ensures,
    lemma_rfold_each_ensures, lemma_rfold_each_requires, RFold, RFoldWithFolder,
};

mod folder;
mod left;
mod right;
