use super::{FoldFn, Folder};
use crate::{Cons, HList, Nil};
use vstd::prelude::*;

verus! {

/// Fold every element of the heterogenous list into an accumulator.
///
/// The folder is one of three things: a function that takes every element
/// (then all elements have one type); a heterogenous list of functions, one
/// for each element; or a [`Folder`] around an object that has a
/// [folder function](FoldFn) for the type of every element.
///
/// A caller that folds a non-empty list with functions gets `fold_requires`
/// from `lemma_fold_all_requires` or `lemma_fold_each_requires`, and learns
/// from `lemma_fold_all_ensures` or `lemma_fold_each_ensures` what
/// `fold_ensures` says of the result: the verifier does not unfold the two
/// by itself where the folder is a function.
pub trait Fold<Accumulator, F>: HList {
    /// Whether the folder may be called on `init` and the first element, and
    /// then on whatever each call may return and the next element.
    spec fn fold_requires(self, init: Accumulator, folder: F) -> bool;

    /// Whether `out` may come out of folding: of an empty list it is `init`;
    /// of another list it may come out of folding the tail, starting with a
    /// value that the folder may return for `init` and the first element.
    spec fn fold_ensures(self, init: Accumulator, folder: F, out: Accumulator) -> bool;

    /// Folds every element into an accumulator by applying an operation via
    /// folder, returning the final result.
    ///
    /// This left folds the heterogenous list from its beginning to the end,
    /// or combines elements in a *left-associative* fashion.
    fn fold(self, init: Accumulator, folder: F) -> (out: Accumulator)
        requires
            self.fold_requires(init, folder),
        ensures
            self.fold_ensures(init, folder, out),
    ;
}

impl<A, F> Fold<A, F> for Nil {
    open spec fn fold_requires(self, init: A, folder: F) -> bool {
        true
    }

    open spec fn fold_ensures(self, init: A, folder: F, out: A) -> bool {
        out == init
    }

    fn fold(self, init: A, _folder: F) -> (out: A) {
        init
    }
}

impl<A, F, Head, Tail> Fold<A, F> for Cons<Head, Tail> where
    F: FnMut(A, Head) -> A,
    Tail: Fold<A, F>,
 {
    open spec fn fold_requires(self, init: A, folder: F) -> bool {
        &&& call_requires(folder, (init, self.0))
        &&& forall|next: A| #[trigger]
            call_ensures(folder, (init, self.0), next) ==> self.1.fold_requires(next, folder)
    }

    open spec fn fold_ensures(self, init: A, folder: F, out: A) -> bool {
        exists|next: A| #[trigger]
            call_ensures(folder, (init, self.0), next) && self.1.fold_ensures(next, folder, out)
    }

    fn fold(self, init: A, folder: F) -> (out: A) {
        let Cons(head, tail) = self;
        let mut step = folder;
        let next = step(init, head);
        let out = tail.fold(next, step);
        proof {
            assert(call_ensures(folder, (init, self.0), next) && self.1.fold_ensures(
                next,
                folder,
                out,
            ));
        }
        out
    }
}

impl<A, FHead, FTail, Head, Tail> Fold<A, Cons<FHead, FTail>> for Cons<Head, Tail> where
    FHead: FnOnce(A, Head) -> A,
    Tail: Fold<A, FTail>,
 {
    open spec fn fold_requires(self, init: A, folder: Cons<FHead, FTail>) -> bool {
        &&& call_requires(folder.0, (init, self.0))
        &&& forall|next: A| #[trigger]
            call_ensures(folder.0, (init, self.0), next) ==> self.1.fold_requires(next, folder.1)
    }

    open spec fn fold_ensures(self, init: A, folder: Cons<FHead, FTail>, out: A) -> bool {
        exists|next: A| #[trigger]
            call_ensures(folder.0, (init, self.0), next) && self.1.fold_ensures(
                next,
                folder.1,
                out,
            )
    }

    fn fold(self, init: A, folder: Cons<FHead, FTail>) -> (out: A) {
        let Cons(head, tail) = self;
        let Cons(folder_head, folder_tail) = folder;
        let next = folder_head(init, head);
        let out = tail.fold(next, folder_tail);
        proof {
            assert(call_ensures(folder.0, (init, self.0), next) && self.1.fold_ensures(
                next,
                folder.1,
                out,
            ));
        }
        out
    }
}

impl<A, F, Head, Tail> Fold<A, Folder<F>> for Cons<Head, Tail> where
    F: FoldFn<A, Head>,
    Tail: Fold<A, Folder<F>>,
 {
    open spec fn fold_requires(self, init: A, folder: Folder<F>) -> bool {
        &&& folder.0.fold_fn_requires(init, self.0)
        &&& forall|after: F, next: A| #[trigger]
            folder.0.fold_fn_ensures(init, self.0, &after, next) ==> self.1.fold_requires(
                next,
                Folder(after),
            )
    }

    open spec fn fold_ensures(self, init: A, folder: Folder<F>, out: A) -> bool {
        exists|after: F, next: A| #[trigger]
            folder.0.fold_fn_ensures(init, self.0, &after, next) && self.1.fold_ensures(
                next,
                Folder(after),
                out,
            )
    }

    fn fold(self, init: A, folder: Folder<F>) -> (out: A) {
        let Cons(head, tail) = self;
        let mut state = folder;
        let next = state.fold(init, head);
        let ghost after = state.0;
        let out = tail.fold(next, state);
        proof {
            assert(folder.0.fold_fn_ensures(init, self.0, &after, next) && self.1.fold_ensures(
                next,
                Folder(after),
                out,
            ));
        }
        out
    }
}

/// Folding a non-empty list with one function is allowed where the function
/// takes `init` and the head, and folding the tail is allowed from whatever
/// the function may return for them.
pub proof fn lemma_fold_all_requires<A, F, Head, Tail>(list: Cons<Head, Tail>, init: A, folder: F) where
    F: FnMut(A, Head) -> A,
    Tail: Fold<A, F>,

    requires
        call_requires(folder, (init, list.0)),
        forall|next: A| #[trigger]
            call_ensures(folder, (init, list.0), next) ==> list.1.fold_requires(next, folder),
    ensures
        list.fold_requires(init, folder),
{
}

/// What comes out of folding a non-empty list with one function comes out
/// of folding the tail, from a value that the function may return for `init`
/// and the head.
pub proof fn lemma_fold_all_ensures<A, F, Head, Tail>(
    list: Cons<Head, Tail>,
    init: A,
    folder: F,
    out: A,
) where F: FnMut(A, Head) -> A, Tail: Fold<A, F>
    requires
        list.fold_ensures(init, folder, out),
    ensures
        exists|next: A| #[trigger]
            call_ensures(folder, (init, list.0), next) && list.1.fold_ensures(next, folder, out),
{
}

/// Folding a non-empty list with a list of functions is allowed where the
/// first function takes `init` and the head, and folding the tail with the
/// other functions is allowed from whatever the first function may return.
pub proof fn lemma_fold_each_requires<A, FHead, FTail, Head, Tail>(
    list: Cons<Head, Tail>,
    init: A,
    folder: Cons<FHead, FTail>,
) where FHead: FnOnce(A, Head) -> A, Tail: Fold<A, FTail>
    requires
        call_requires(folder.0, (init, list.0)),
        forall|next: A| #[trigger]
            call_ensures(folder.0, (init, list.0), next) ==> list.1.fold_requires(next, folder.1),
    ensures
        list.fold_requires(init, folder),
{
}

/// What comes out of folding a non-empty list with a list of functions
/// comes out of folding the tail with the other functions, from a value
/// that the first function may return for `init` and the head.
pub proof fn lemma_fold_each_ensures<A, FHead, FTail, Head, Tail>(
    list: Cons<Head, Tail>,
    init: A,
    folder: Cons<FHead, FTail>,
    out: A,
) where FHead: FnOnce(A, Head) -> A, Tail: Fold<A, FTail>
    requires
        list.fold_ensures(init, folder, out),
    ensures
        exists|next: A| #[trigger]
            call_ensures(folder.0, (init, list.0), next) && list.1.fold_ensures(
                next,
                folder.1,
                out,
            ),
{
}

} // verus!
