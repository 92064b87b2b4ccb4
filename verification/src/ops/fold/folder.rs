use vstd::prelude::*;

verus! {

/// Thin wrapper around [folder function](self::FoldFn).
///
/// Pass this struct into [`Fold::fold()`](super::Fold::fold) or into
/// [`RFold::rfold()`](super::RFold::rfold) to fold with one object that has
/// a folder function for the type of every element.
pub struct Folder<T>(pub T);

/// Implementation of folder function for specified item and accumulator
/// types.
///
/// An implementor says with `fold_fn_requires` which accumulators and items
/// its function takes, and with `fold_fn_ensures` what it may return for
/// them and in which state it may leave the implementor. One that says
/// neither takes every accumulator and item and promises nothing of what it
/// returns.
pub trait FoldFn<Accumulator, Item> {
    /// Whether the folder function may be called with `accumulator` and
    /// `item`.
    open spec fn fold_fn_requires(&self, accumulator: Accumulator, item: Item) -> bool {
        true
    }

    /// Whether the folder function, called with `accumulator` and `item`,
    /// may return `output` and leave the folder as `after`.
    open spec fn fold_fn_ensures(
        &self,
        accumulator: Accumulator,
        item: Item,
        after: &Self,
        output: Accumulator,
    ) -> bool {
        true
    }

    /// Folds an item into an accumulator.
    fn fold(&mut self, accumulator: Accumulator, item: Item) -> (output: Accumulator)
        requires
            old(self).fold_fn_requires(accumulator, item),
        ensures
            old(self).fold_fn_ensures(accumulator, item, final(self), output),
    ;
}

impl<A, T, F> FoldFn<A, T> for Folder<F> where F: FoldFn<A, T> {
    open spec fn fold_fn_requires(&self, accumulator: A, item: T) -> bool {
        self.0.fold_fn_requires(accumulator, item)
    }

    open spec fn fold_fn_ensures(&self, accumulator: A, item: T, after: &Self, output: A) -> bool {
        self.0.fold_fn_ensures(accumulator, item, &after.0, output)
    }

    fn fold(&mut self, accumulator: A, item: T) -> (output: A) {
        self.0.fold(accumulator, item)
    }
}

impl<A, T, F> FoldFn<A, T> for &mut F where F: FoldFn<A, T> {
    open spec fn fold_fn_requires(&self, accumulator: A, item: T) -> bool {
        (**self).fold_fn_requires(accumulator, item)
    }

    open spec fn fold_fn_ensures(&self, accumulator: A, item: T, after: &Self, output: A) -> bool {
        (**self).fold_fn_ensures(accumulator, item, &**after, output)
    }

    fn fold(&mut self, accumulator: A, item: T) -> (output: A) {
        (**self).fold(accumulator, item)
    }
}

} // verus!
