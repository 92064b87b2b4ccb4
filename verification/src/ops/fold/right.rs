use super::{FoldFn, Folder};
use crate::{Cons, HList, Nil};
use vstd::prelude::*;

verus! {

/// Right fold every element of the heterogenous list into an accumulator.
///
/// The folder is one of three things: a function that takes every element
/// (then all elements have one type); a heterogenous list of functions, one
/// for each element; or a [`Folder`] around an object that has a
/// [folder function](FoldFn) for the type of every element.
///
/// A caller that folds a non-empty list with functions gets `rfold_requires`
/// from `lemma_rfold_all_requires` or `lemma_rfold_each_requires`, and
/// learns from `lemma_rfold_all_ensures` or `lemma_rfold_each_ensures` what
/// `rfold_ensures` says of the result: the verifier does not unfold the two
/// by itself where the folder is a function.
pub trait RFold<Accumulator, F>: HList {
    /// Whether the folder may be called on `init` and the last element, and
    /// then on whatever each call may return and the element before.
    spec fn rfold_requires(self, init: Accumulator, folder: F) -> bool;

    /// Whether `out` may come out of folding from the back: of an empty list
    /// it is `init`; of another list it is a value that the folder may
    /// return for the first element and a value that may come out of folding
    /// the tail from the back.
    spec fn rfold_ensures(self, init: Accumulator, folder: F, out: Accumulator) -> bool;

    /// Folds every element into an accumulator from the back by applying an
    /// operation via folder, returning the final result.
    ///
    /// This right folds the heterogenous list from its end to the beginning,
    /// or combines elements in a *right-associative* fashion.
    fn rfold(self, init: Accumulator, folder: F) -> (out: Accumulator)
        requires
            self.rfold_requires(init, folder),
        ensures
            self.rfold_ensures(init, folder, out),
    ;
}

impl<A, F> RFold<A, F> for Nil {
    open spec fn rfold_requires(self, init: A, folder: F) -> bool {
        true
    }

    open spec fn rfold_ensures(self, init: A, folder: F, out: A) -> bool {
        out == init
    }

    fn rfold(self, init: A, _folder: F) -> (out: A) {
        init
    }
}

impl<A, F, Head, Tail> RFold<A, F> for Cons<Head, Tail> where
    F: FnMut(A, Head) -> A,
    Tail: RFoldWithFolder<A, F>,
 {
    open spec fn rfold_requires(self, init: A, folder: F) -> bool {
        &&& self.1.with_folder_requires(init, folder)
        &&& forall|last: A, after: F| #[trigger]
            self.1.with_folder_ensures(init, folder, (last, after)) ==> call_requires(
                after,
                (last, self.0),
            )
    }

    open spec fn rfold_ensures(self, init: A, folder: F, out: A) -> bool {
        exists|last: A, after: F| #[trigger]
            self.1.with_folder_ensures(init, folder, (last, after)) && call_ensures(
                after,
                (last, self.0),
                out,
            )
    }

    fn rfold(self, init: A, folder: F) -> (out: A) {
        let Cons(head, tail) = self;
        let (last, after) = tail.rfold_with_folder(init, folder);
        let mut step = after;
        let out = step(last, head);
        proof {
            assert(self.1.with_folder_ensures(init, folder, (last, after)) && call_ensures(
                after,
                (last, self.0),
                out,
            ));
        }
        out
    }
}

impl<A, FHead, FTail, Head, Tail> RFold<A, Cons<FHead, FTail>> for Cons<Head, Tail> where
    FHead: FnOnce(A, Head) -> A,
    Tail: RFold<A, FTail>,
 {
    open spec fn rfold_requires(self, init: A, folder: Cons<FHead, FTail>) -> bool {
        &&& self.1.rfold_requires(init, folder.1)
        &&& forall|last: A| #[trigger]
            self.1.rfold_ensures(init, folder.1, last) ==> call_requires(
                folder.0,
                (last, self.0),
            )
    }

    open spec fn rfold_ensures(self, init: A, folder: Cons<FHead, FTail>, out: A) -> bool {
        exists|last: A| #[trigger]
            self.1.rfold_ensures(init, folder.1, last) && call_ensures(
                folder.0,
                (last, self.0),
                out,
            )
    }

    fn rfold(self, init: A, folder: Cons<FHead, FTail>) -> (out: A) {
        let Cons(head, tail) = self;
        let Cons(folder_head, folder_tail) = folder;
        let last = tail.rfold(init, folder_tail);
        let out = folder_head(last, head);
        proof {
            assert(self.1.rfold_ensures(init, folder.1, last) && call_ensures(
                folder.0,
                (last, self.0),
                out,
            ));
        }
        out
    }
}

impl<A, F, Head, Tail> RFold<A, Folder<F>> for Cons<Head, Tail> where
    F: FoldFn<A, Head>,
    Tail: RFoldWithFolder<A, Folder<F>>,
 {
    open spec fn rfold_requires(self, init: A, folder: Folder<F>) -> bool {
        &&& self.1.with_folder_requires(init, folder)
        &&& forall|last: A, after: Folder<F>| #[trigger]
            self.1.with_folder_ensures(init, folder, (last, after))
                ==> after.0.fold_fn_requires(last, self.0)
    }

    open spec fn rfold_ensures(self, init: A, folder: Folder<F>, out: A) -> bool {
        exists|last: A, after: Folder<F>, end: F| #[trigger]
            self.1.with_folder_ensures(init, folder, (last, after))
                && #[trigger] after.0.fold_fn_ensures(last, self.0, &end, out)
    }

    fn rfold(self, init: A, folder: Folder<F>) -> (out: A) {
        let Cons(head, tail) = self;
        let (last, after) = tail.rfold_with_folder(init, folder);
        let mut state = after;
        let out = state.fold(last, head);
        proof {
            assert(self.1.with_folder_ensures(init, folder, (last, after))
                && after.0.fold_fn_ensures(last, self.0, &state.0, out));
        }
        out
    }
}

/// Right fold that hands the folder back, so that the caller can use it on
/// the element before.
pub trait RFoldWithFolder<Accumulator, F>: HList {
    /// Whether the folder may be called on `init` and the last element, and
    /// then on whatever each call may return and the element before.
    spec fn with_folder_requires(self, init: Accumulator, folder: F) -> bool;

    /// Whether `out` may be what comes out of folding from the back,
    /// together with the folder as the calls may have left it.
    spec fn with_folder_ensures(self, init: Accumulator, folder: F, out: (Accumulator, F)) -> bool;

    /// Folds every element into an accumulator from the back, and returns
    /// the final result and the folder.
    fn rfold_with_folder(self, init: Accumulator, folder: F) -> (out: (Accumulator, F))
        requires
            self.with_folder_requires(init, folder),
        ensures
            self.with_folder_ensures(init, folder, out),
    ;
}

impl<A, F> RFoldWithFolder<A, F> for Nil {
    open spec fn with_folder_requires(self, init: A, folder: F) -> bool {
        true
    }

    open spec fn with_folder_ensures(self, init: A, folder: F, out: (A, F)) -> bool {
        out == (init, folder)
    }

    fn rfold_with_folder(self, init: A, folder: F) -> (out: (A, F)) {
        (init, folder)
    }
}

impl<A, F, Head, Tail> RFoldWithFolder<A, F> for Cons<Head, Tail> where
    F: FnMut(A, Head) -> A,
    Tail: RFoldWithFolder<A, F>,
 {
    open spec fn with_folder_requires(self, init: A, folder: F) -> bool {
        &&& self.1.with_folder_requires(init, folder)
        &&& forall|last: A, after: F| #[trigger]
            self.1.with_folder_ensures(init, folder, (last, after)) ==> call_requires(
                after,
                (last, self.0),
            )
    }

    open spec fn with_folder_ensures(self, init: A, folder: F, out: (A, F)) -> bool {
        exists|last: A| #[trigger]
            self.1.with_folder_ensures(init, folder, (last, out.1)) && call_ensures(
                out.1,
                (last, self.0),
                out.0,
            )
    }

    fn rfold_with_folder(self, init: A, folder: F) -> (out: (A, F)) {
        let Cons(head, tail) = self;
        let (last, after) = tail.rfold_with_folder(init, folder);
        let mut step = after;
        let next = step(last, head);
        let out = (next, step);
        proof {
            assert(self.1.with_folder_ensures(init, folder, (last, out.1)) && call_ensures(
                out.1,
                (last, self.0),
                out.0,
            ));
        }
        out
    }
}

impl<A, F, Head, Tail> RFoldWithFolder<A, Folder<F>> for Cons<Head, Tail> where
    F: FoldFn<A, Head>,
    Tail: RFoldWithFolder<A, Folder<F>>,
 {
    open spec fn with_folder_requires(self, init: A, folder: Folder<F>) -> bool {
        &&& self.1.with_folder_requires(init, folder)
        &&& forall|last: A, after: Folder<F>| #[trigger]
            self.1.with_folder_ensures(init, folder, (last, after))
                ==> after.0.fold_fn_requires(last, self.0)
    }

    open spec fn with_folder_ensures(
        self,
        init: A,
        folder: Folder<F>,
        out: (A, Folder<F>),
    ) -> bool {
        exists|last: A, after: Folder<F>| #[trigger]
            self.1.with_folder_ensures(init, folder, (last, after))
                && after.0.fold_fn_ensures(last, self.0, &out.1.0, out.0)
    }

    fn rfold_with_folder(self, init: A, folder: Folder<F>) -> (out: (A, Folder<F>)) {
        let Cons(head, tail) = self;
        let (last, after) = tail.rfold_with_folder(init, folder);
        let mut state = after;
        let next = state.fold(last, head);
        let out = (next, state);
        proof {
            assert(self.1.with_folder_ensures(init, folder, (last, after))
                && after.0.fold_fn_ensures(last, self.0, &out.1.0, out.0));
        }
        out
    }
}

/// Folding a non-empty list from the back with one function is allowed
/// where folding the tail from the back is, and the function takes the head
/// and whatever may come out of the tail.
pub proof fn lemma_rfold_all_requires<A, F, Head, Tail>(
    list: Cons<Head, Tail>,
    init: A,
    folder: F,
) where F: FnMut(A, Head) -> A, Tail: RFoldWithFolder<A, F>
    requires
        list.1.with_folder_requires(init, folder),
        forall|last: A, after: F| #[trigger]
            list.1.with_folder_ensures(init, folder, (last, after)) ==> call_requires(
                after,
                (last, list.0),
            ),
    ensures
        list.rfold_requires(init, folder),
        list.with_folder_requires(init, folder),
{
}

/// What comes out of folding a non-empty list from the back with one
/// function is what the function may return for the head and a value that
/// may come out of folding the tail from the back.
pub proof fn lemma_rfold_all_ensures<A, F, Head, Tail>(
    list: Cons<Head, Tail>,
    init: A,
    folder: F,
    out: A,
) where F: FnMut(A, Head) -> A, Tail: RFoldWithFolder<A, F>
    requires
        list.rfold_ensures(init, folder, out),
    ensures
        exists|last: A, after: F| #[trigger]
            list.1.with_folder_ensures(init, folder, (last, after)) && call_ensures(
                after,
                (last, list.0),
                out,
            ),
{
}

/// What comes out of folding a non-empty list from the back with one
/// function, together with the function, is what the function may return
/// for the head and a value that may come out of folding the tail from the
/// back.
pub proof fn lemma_rfold_all_with_folder_ensures<A, F, Head, Tail>(
    list: Cons<Head, Tail>,
    init: A,
    folder: F,
    out: (A, F),
) where F: FnMut(A, Head) -> A, Tail: RFoldWithFolder<A, F>
    requires
        list.with_folder_ensures(init, folder, out),
    ensures
        exists|last: A| #[trigger]
            list.1.with_folder_ensures(init, folder, (last, out.1)) && call_ensures(
                out.1,
                (last, list.0),
                out.0,
            ),
{
}

/// Folding a non-empty list from the back with a list of functions is
/// allowed where folding the tail with the other functions is, and the
/// first function takes the head and whatever may come out of the tail.
pub proof fn lemma_rfold_each_requires<A, FHead, FTail, Head, Tail>(
    list: Cons<Head, Tail>,
    init: A,
    folder: Cons<FHead, FTail>,
) where FHead: FnOnce(A, Head) -> A, Tail: RFold<A, FTail>
    requires
        list.1.rfold_requires(init, folder.1),
        forall|last: A| #[trigger]
            list.1.rfold_ensures(init, folder.1, last) ==> call_requires(
                folder.0,
                (last, list.0),
            ),
    ensures
        list.rfold_requires(init, folder),
{
}

/// What comes out of folding a non-empty list from the back with a list of
/// functions is what the first function may return for the head and a value
/// that may come out of folding the tail with the other functions.
pub proof fn lemma_rfold_each_ensures<A, FHead, FTail, Head, Tail>(
    list: Cons<Head, Tail>,
    init: A,
    folder: Cons<FHead, FTail>,
    out: A,
) where FHead: FnOnce(A, Head) -> A, Tail: RFold<A, FTail>
    requires
        list.rfold_ensures(init, folder, out),
    ensures
        exists|last: A| #[trigger]
            list.1.rfold_ensures(init, folder.1, last) && call_ensures(
                folder.0,
                (last, list.0),
                out,
            ),
{
}

} // verus!
