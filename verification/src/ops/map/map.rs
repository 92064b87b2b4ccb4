use super::{MapFn, Mapper};
use crate::{Cons, HList, Nil};
use vstd::prelude::*;

verus! {

/// Transform one heterogenous list into another.
///
/// The mapper is one of three things: a function that takes every element
/// (then all elements have one type); a heterogenous list of functions, one
/// for each element; or a [`Mapper`] around an object that has a
/// [mapper function](MapFn) for the type of every element.
pub trait MapList<M>: HList {
    /// Type of new heterogenous list after transformation.
    type Output: HList;

    /// Whether the mapper may be called on every element: on the first as
    /// the mapper is given, on each later one in whatever state the calls
    /// before may have left it.
    spec fn map_requires(self, mapper: M) -> bool;

    /// Whether `out` holds, at each position, a value that the mapper may
    /// return for the element of `self` at that position, the calls made in
    /// the order of the elements.
    spec fn map_ensures(self, mapper: M, out: Self::Output) -> bool;

    /// Transforms the heterogenous list into another heterogenous list by
    /// applying an operation to each element by mapper.
    fn map(self, mapper: M) -> (out: Self::Output)
        requires
            self.map_requires(mapper),
        ensures
            self.map_ensures(mapper, out),
            out.spec_len() == self.spec_len(),
    ;
}

impl<M> MapList<M> for Nil {
    type Output = Nil;

    open spec fn map_requires(self, mapper: M) -> bool {
        true
    }

    open spec fn map_ensures(self, mapper: M, out: Nil) -> bool {
        true
    }

    fn map(self, _mapper: M) -> (out: Nil) {
        self
    }
}

impl<M, R, Head, Tail> MapList<M> for Cons<Head, Tail> where
    M: FnMut(Head) -> R,
    Tail: MapList<M>,
 {
    type Output = Cons<R, Tail::Output>;

    open spec fn map_requires(self, mapper: M) -> bool {
        &&& call_requires(mapper, (self.0,))
        &&& self.1.map_requires(mapper)
    }

    open spec fn map_ensures(self, mapper: M, out: Cons<R, Tail::Output>) -> bool {
        &&& call_ensures(mapper, (self.0,), out.0)
        &&& self.1.map_ensures(mapper, out.1)
    }

    fn map(self, mapper: M) -> (out: Cons<R, Tail::Output>) {
        let Cons(head, tail) = self;
        let mut mapper = mapper;
        let head = mapper(head);
        let tail = tail.map(mapper);
        Cons(head, tail)
    }
}

impl<MHead, MTail, Head, Tail, R> MapList<Cons<MHead, MTail>> for Cons<Head, Tail> where
    MHead: FnOnce(Head) -> R,
    Tail: MapList<MTail>,
 {
    type Output = Cons<R, Tail::Output>;

    open spec fn map_requires(self, mapper: Cons<MHead, MTail>) -> bool {
        &&& call_requires(mapper.0, (self.0,))
        &&& self.1.map_requires(mapper.1)
    }

    open spec fn map_ensures(
        self,
        mapper: Cons<MHead, MTail>,
        out: Cons<R, Tail::Output>,
    ) -> bool {
        &&& call_ensures(mapper.0, (self.0,), out.0)
        &&& self.1.map_ensures(mapper.1, out.1)
    }

    fn map(self, mapper: Cons<MHead, MTail>) -> (out: Cons<R, Tail::Output>) {
        let Cons(head, tail) = self;
        let Cons(mapper_head, mapper_tail) = mapper;
        let head = mapper_head(head);
        let tail = tail.map(mapper_tail);
        Cons(head, tail)
    }
}

impl<M, Head, Tail> MapList<Mapper<M>> for Cons<Head, Tail> where
    M: MapFn<Head>,
    Tail: MapList<Mapper<M>>,
 {
    type Output = Cons<M::Output, Tail::Output>;

    open spec fn map_requires(self, mapper: Mapper<M>) -> bool {
        &&& mapper.0.map_fn_requires(self.0)
        &&& forall|after: M, output: M::Output| #[trigger]
            mapper.0.map_fn_ensures(self.0, &after, output) ==> self.1.map_requires(Mapper(after))
    }

    open spec fn map_ensures(self, mapper: Mapper<M>, out: Self::Output) -> bool {
        exists|after: M| #[trigger]
            mapper.0.map_fn_ensures(self.0, &after, out.0) && self.1.map_ensures(
                Mapper(after),
                out.1,
            )
    }

    fn map(self, mapper: Mapper<M>) -> (out: Self::Output) {
        let Cons(head, tail) = self;
        let mut state = mapper;
        let head = state.map(head);
        let ghost after = state.0;
        let tail = tail.map(state);
        let out = Cons(head, tail);
        proof {
            assert(mapper.0.map_fn_ensures(self.0, &after, out.0) && self.1.map_ensures(
                Mapper(after),
                out.1,
            ));
        }
        out
    }
}

} // verus!
