//! Iteration over heterogenous lists whose elements all have one type, and
//! construction of such lists from a vector of items.
//!
//! To iterate, each element is first put into a slot that holds it until it
//! is taken ([`PrepareIter`]); [`IntoIter`] then hands the elements out one
//! by one from the first. Iteration over references goes the same way, from
//! the list of references that [`ToRef`](crate::ops::ToRef) gives.

use crate::{Cons, HList, Nil};
use vstd::prelude::*;

verus! {

/// A heterogenous list of slots, each holding an item until it is taken.
pub trait ReadyIter: HList {
    /// Type of the items.
    type Item;

    /// The items that have not been taken yet, in the order of their slots.
    spec fn spec_remaining(&self) -> Seq<Self::Item>;

    /// The list of slots with the first slot that holds an item emptied,
    /// and every other slot as it is.
    spec fn spec_taken(self) -> Self;

    /// Takes the item out of the first slot that still holds one.
    ///
    /// That slot is left empty and no other slot is touched. Returns `None`,
    /// and changes nothing, where every slot is empty.
    fn next(&mut self) -> (item: Option<Self::Item>)
        ensures
            *final(self) == old(self).spec_taken(),
            old(self).spec_remaining().len() == 0 ==> item is None && *final(self) == *old(self),
            old(self).spec_remaining().len() > 0 ==> item == Some(old(self).spec_remaining()[0])
                && final(self).spec_remaining() == old(self).spec_remaining().drop_first(),
            final(self).spec_len() == old(self).spec_len(),
    ;

    /// Returns the number of items that have not been taken yet.
    fn remaining(&self) -> (n: usize)
        requires
            self.spec_len() <= usize::MAX,
        ensures
            n == self.spec_remaining().len(),
    ;

    /// There are at most as many items left as there are slots.
    proof fn lemma_remaining_len(&self)
        ensures
            self.spec_remaining().len() <= self.spec_len(),
    ;

    /// Emptying the first slot that holds an item takes the first of the
    /// items that are left and keeps the number of slots; where no slot
    /// holds an item, it changes nothing.
    proof fn lemma_taken(self)
        ensures
            self.spec_taken().spec_len() == self.spec_len(),
            self.spec_remaining().len() == 0 ==> self.spec_taken() == self,
            self.spec_remaining().len() > 0 ==> self.spec_taken().spec_remaining()
                == self.spec_remaining().drop_first(),
    ;
}

/// The item of a slot as a sequence: of one item, or empty once it is taken.
pub open spec fn slot_items<T>(slot: Option<T>) -> Seq<T> {
    match slot {
        Some(item) => seq![item],
        None => Seq::empty(),
    }
}

impl<Head> ReadyIter for Cons<Option<Head>, Nil> {
    type Item = Head;

    open spec fn spec_remaining(&self) -> Seq<Head> {
        slot_items(self.0)
    }

    open spec fn spec_taken(self) -> Self {
        Cons(None, Nil)
    }

    fn next(&mut self) -> (item: Option<Head>) {
        let item = self.0.take();
        proof {
            assert(seq![item->0].drop_first() =~= Seq::<Head>::empty());
        }
        item
    }

    fn remaining(&self) -> (n: usize) {
        let Cons(head, _) = self;
        if head.is_some() {
            1
        } else {
            0
        }
    }

    proof fn lemma_remaining_len(&self) {
    }

    proof fn lemma_taken(self) {
        assert(seq![self.0->0].drop_first() =~= Seq::<Head>::empty());
    }
}

impl<Head, Tail> ReadyIter for Cons<Option<Head>, Tail> where Tail: ReadyIter<Item = Head> {
    type Item = Head;

    open spec fn spec_remaining(&self) -> Seq<Head> {
        slot_items(self.0) + self.1.spec_remaining()
    }

    open spec fn spec_taken(self) -> Self {
        if self.0 is Some {
            Cons(None, self.1)
        } else {
            Cons(None, self.1.spec_taken())
        }
    }

    fn next(&mut self) -> (item: Option<Head>) {
        let ghost before = *self;
        match self.0.take() {
            Some(item) => {
                proof {
                    assert(before.spec_remaining().drop_first() =~= self.1.spec_remaining());
                }
                Some(item)
            },
            None => {
                proof {
                    assert(before.spec_remaining() =~= before.1.spec_remaining());
                }
                let item = self.1.next();
                proof {
                    assert(self.spec_remaining() =~= self.1.spec_remaining());
                }
                item
            },
        }
    }

    fn remaining(&self) -> (n: usize) {
        let Cons(head, tail) = self;
        proof {
            tail.lemma_remaining_len();
        }
        let head: usize = if head.is_some() {
            1
        } else {
            0
        };
        let tail = tail.remaining();
        head + tail
    }

    proof fn lemma_remaining_len(&self) {
        self.1.lemma_remaining_len();
    }

    proof fn lemma_taken(self) {
        self.1.lemma_taken();
        if self.0 is Some {
            assert(self.spec_remaining().drop_first() =~= self.1.spec_remaining());
            assert(self.spec_taken().spec_remaining() =~= self.1.spec_remaining());
        } else {
            assert(self.spec_remaining() =~= self.1.spec_remaining());
            assert(self.spec_taken().spec_remaining() =~= self.1.spec_taken().spec_remaining());
        }
    }
}

/// A non-empty heterogenous list whose elements all have one type, which can
/// be made ready for iteration.
pub trait PrepareIter: HList {
    /// Type of the list of slots that hold the elements.
    type Output: ReadyIter;

    /// The elements of the list, in order.
    spec fn spec_items(self) -> Seq<<Self::Output as ReadyIter>::Item>;

    /// Puts each element into a slot of its own.
    ///
    /// No item is taken yet: what remains is every element of the list, in
    /// the order of the list.
    fn prepare_iter(self) -> (out: Self::Output)
        ensures
            out.spec_remaining() == self.spec_items(),
            out.spec_len() == self.spec_len(),
            self.spec_items().len() == self.spec_len(),
    ;
}

impl<Head> PrepareIter for Cons<Head, Nil> {
    type Output = Cons<Option<Head>, Nil>;

    open spec fn spec_items(self) -> Seq<Head> {
        seq![self.0]
    }

    fn prepare_iter(self) -> (out: Self::Output) {
        let Cons(head, tail) = self;
        let head = Some(head);
        Cons(head, tail)
    }
}

impl<Head, Tail> PrepareIter for Cons<Head, Tail> where
    Tail: PrepareIter,
    Tail::Output: ReadyIter<Item = Head>,
 {
    type Output = Cons<Option<Head>, Tail::Output>;

    open spec fn spec_items(self) -> Seq<Head> {
        seq![self.0] + self.1.spec_items()
    }

    fn prepare_iter(self) -> (out: Self::Output) {
        let Cons(head, tail) = self;
        let head = Some(head);
        let tail = tail.prepare_iter();
        Cons(head, tail)
    }
}

/// An iterator that moves out of a heterogenous list.
///
/// Its view is the sequence of the elements that it has not handed out yet.
#[derive(Debug, PartialEq, Eq, PartialOrd, Ord, Clone, Copy, Hash)]
pub struct IntoIter<T> where T: PrepareIter {
    prepared: T::Output,
}

impl<T> View for IntoIter<T> where T: PrepareIter {
    type V = Seq<<T::Output as ReadyIter>::Item>;

    closed spec fn view(&self) -> Self::V {
        self.prepared.spec_remaining()
    }
}

impl<T> IntoIter<T> where T: PrepareIter {
    /// Whether the number of slots fits in a `usize`, as it does for every
    /// iterator that [`IntoIter::new`] has made.
    pub closed spec fn wf(&self) -> bool {
        self.prepared.spec_len() <= usize::MAX
    }

    /// Creates an iterator that hands out the elements of `list` from the
    /// first to the last.
    pub fn new(list: T) -> (out: Self)
        requires
            list.spec_len() <= usize::MAX,
        ensures
            out.wf(),
            out@ == list.spec_items(),
            out@.len() == list.spec_len(),
    {
        let prepared = list.prepare_iter();
        IntoIter { prepared }
    }

    /// Hands out the first element that has not been handed out yet, or
    /// `None` once there is none left.
    pub fn next(&mut self) -> (item: Option<<T::Output as ReadyIter>::Item>)
        requires
            old(self).wf(),
        ensures
            final(self).wf(),
            old(self)@.len() == 0 ==> item is None && final(self)@ == old(self)@,
            old(self)@.len() > 0 ==> item == Some(old(self)@[0]) && final(self)@
                == old(self)@.drop_first(),
    {
        self.prepared.next()
    }

    /// Returns the exact number of elements that are left.
    pub fn len(&self) -> (n: usize)
        requires
            self.wf(),
        ensures
            n == self@.len(),
    {
        self.prepared.remaining()
    }

    /// Returns the bounds on the number of elements that are left: both are
    /// the exact number.
    pub fn size_hint(&self) -> (hint: (usize, Option<usize>))
        requires
            self.wf(),
        ensures
            hint == (self@.len() as usize, Some(self@.len() as usize)),
            hint.0 == self@.len(),
    {
        let len = self.len();
        (len, Some(len))
    }
}

/// Why the items of a vector do not fill a heterogenous list.
#[derive(Debug, Clone, Copy, PartialEq, Eq)]
pub enum FromVecError {
    /// The vector holds fewer items than the list has elements.
    NotEnough,
    /// The vector holds more items than the list has elements.
    TooMany,
}

/// A heterogenous list whose elements all have one type, which can be made
/// from a vector of as many items as the list has elements.
pub trait FromVec<A>: HList {
    /// The number of elements that every list of this type has.
    spec fn spec_slots() -> nat;

    /// The list whose elements are the items, in order.
    spec fn spec_from_items(items: Seq<A>) -> Self;

    /// Creates a heterogenous list from the items of a vector, in order.
    ///
    /// The vector has to hold exactly as many items as the list has
    /// elements.
    fn from_vec(items: Vec<A>) -> (out: Self)
        requires
            items@.len() == Self::spec_slots(),
        ensures
            out == Self::spec_from_items(items@),
            out.spec_len() == items@.len(),
    ;

    /// Creates a heterogenous list from the items of a vector, in order, if
    /// the vector holds exactly as many items as the list has elements.
    ///
    /// Otherwise it says whether the items are not enough or too many.
    fn try_from_vec(items: Vec<A>) -> (out: Result<Self, FromVecError>)
        ensures
            items@.len() == Self::spec_slots() ==> out == Ok::<Self, FromVecError>(
                Self::spec_from_items(items@),
            ),
            items@.len() < Self::spec_slots() ==> out == Err::<Self, FromVecError>(
                FromVecError::NotEnough,
            ),
            items@.len() > Self::spec_slots() ==> out == Err::<Self, FromVecError>(
                FromVecError::TooMany,
            ),
    ;
}

impl<A> FromVec<A> for Nil {
    open spec fn spec_slots() -> nat {
        0
    }

    open spec fn spec_from_items(items: Seq<A>) -> Nil {
        Nil
    }

    fn from_vec(_items: Vec<A>) -> (out: Nil) {
        Nil
    }

    fn try_from_vec(items: Vec<A>) -> (out: Result<Nil, FromVecError>) {
        if items.len() > 0 {
            Err(FromVecError::TooMany)
        } else {
            Ok(Nil)
        }
    }
}

impl<Head, Tail> FromVec<Head> for Cons<Head, Tail> where Tail: FromVec<Head> {
    open spec fn spec_slots() -> nat {
        1 + Tail::spec_slots()
    }

    open spec fn spec_from_items(items: Seq<Head>) -> Self {
        Cons(items[0], Tail::spec_from_items(items.drop_first()))
    }

    fn from_vec(items: Vec<Head>) -> (out: Self) {
        let mut rest = items;
        let head = rest.remove(0);
        proof {
            assert(rest@ =~= items@.drop_first());
        }
        let tail = Tail::from_vec(rest);
        Cons(head, tail)
    }

    fn try_from_vec(items: Vec<Head>) -> (out: Result<Self, FromVecError>) {
        if items.len() == 0 {
            return Err(FromVecError::NotEnough);
        }
        let mut rest = items;
        let head = rest.remove(0);
        proof {
            assert(rest@ =~= items@.drop_first());
        }
        match Tail::try_from_vec(rest) {
            Ok(tail) => Ok(Cons(head, tail)),
            Err(error) => Err(error),
        }
    }
}

} // verus!
