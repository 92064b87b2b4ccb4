use super::{Append, Extend, Get, Here, Index, Pop, Remove, Reverse, Rewind, There, Zip};
use crate::iter::{FromVec, PrepareIter, ReadyIter};
use crate::{Cons, HList, Nil};
use vstd::prelude::*;

verus! {

/// A heterogenous list whose elements all have the type `T`.
///
/// Such a list has its elements as a sequence, and on it the operations of
/// this module are the operations on sequences that go by the same names.
pub trait Homogenous<T>: HList {
    /// The elements of the list, in order.
    spec fn spec_seq(self) -> Seq<T>;

    /// The sequence of the elements is as long as the list.
    proof fn lemma_seq_len(self)
        ensures
            self.spec_seq().len() == self.spec_len(),
    ;
}

impl<T> Homogenous<T> for Nil {
    open spec fn spec_seq(self) -> Seq<T> {
        Seq::empty()
    }

    proof fn lemma_seq_len(self) {
    }
}

impl<T, Tail> Homogenous<T> for Cons<T, Tail> where Tail: Homogenous<T> {
    open spec fn spec_seq(self) -> Seq<T> {
        seq![self.0] + self.1.spec_seq()
    }

    proof fn lemma_seq_len(self) {
        self.1.lemma_seq_len();
    }
}

/// Prepending to a list of one type puts the element in front of its
/// sequence.
pub proof fn lemma_prepend_seq<T, L>(list: L, value: T) where L: Homogenous<T>
    ensures
        Cons(value, list).spec_seq() == seq![value] + list.spec_seq(),
{
}

/// Lists of one type on which appending is pushing onto the sequence:
/// proved for [`Nil`], and for a [`Cons`] from its tail.
pub trait AppendSeq<T>: Homogenous<T> + Append<T> where Self::Output: Homogenous<T> {
    /// Appending to the list pushes the element onto its sequence.
    proof fn lemma_append_seq(self, value: T)
        ensures
            self.spec_append(value).spec_seq() == self.spec_seq().push(value),
    ;
}

impl<T> AppendSeq<T> for Nil {
    proof fn lemma_append_seq(self, value: T) {
        assert(Cons(value, Nil).spec_seq() =~= Seq::<T>::empty().push(value));
    }
}

impl<T, Tail> AppendSeq<T> for Cons<T, Tail> where Tail: AppendSeq<T>, Tail::Output: Homogenous<T> {
    proof fn lemma_append_seq(self, value: T) {
        self.1.lemma_append_seq(value);
        assert(self.spec_append(value).spec_seq() =~= self.spec_seq().push(value));
    }
}

/// Pairs of lists of one type on which extending is concatenating the
/// sequences: proved for [`Nil`], and for a [`Cons`] from its tail.
pub trait ExtendSeq<T, Other>: Homogenous<T> + Extend<Other> where
    Other: Homogenous<T>,
    Self::Output: Homogenous<T>,
 {
    /// Extending the list with another puts the other's sequence after its
    /// own.
    proof fn lemma_extend_seq(self, other: Other)
        ensures
            self.spec_extend(other).spec_seq() == self.spec_seq() + other.spec_seq(),
    ;
}

impl<T, Other> ExtendSeq<T, Other> for Nil where Other: Homogenous<T> {
    proof fn lemma_extend_seq(self, other: Other) {
        assert(other.spec_seq() =~= Seq::<T>::empty() + other.spec_seq());
    }
}

impl<T, Other, Tail> ExtendSeq<T, Other> for Cons<T, Tail> where
    Other: Homogenous<T>,
    Tail: ExtendSeq<T, Other>,
    Tail::Output: Homogenous<T>,
 {
    proof fn lemma_extend_seq(self, other: Other) {
        self.1.lemma_extend_seq(other);
        assert(self.spec_extend(other).spec_seq() =~= self.spec_seq() + other.spec_seq());
    }
}

/// Pairs of lists of one type on which rewinding puts the reversed sequence
/// of the first in front of the sequence of the second: proved for [`Nil`],
/// and for a [`Cons`] from its tail.
pub trait RewindSeq<T, Done>: Homogenous<T> + Rewind<Done> where
    Done: Homogenous<T>,
    Self::Output: Homogenous<T>,
 {
    /// Rewinding the list onto `done` gives its sequence in the opposite
    /// order, followed by the sequence of `done`.
    proof fn lemma_rewind_seq(self, done: Done)
        ensures
            self.spec_rewind(done).spec_seq() == self.spec_seq().reverse() + done.spec_seq(),
    ;
}

impl<T, Done> RewindSeq<T, Done> for Nil where Done: Homogenous<T> {
    proof fn lemma_rewind_seq(self, done: Done) {
        assert(done.spec_seq() =~= Seq::<T>::empty().reverse() + done.spec_seq());
    }
}

impl<T, Done, Tail> RewindSeq<T, Done> for Cons<T, Tail> where
    Done: Homogenous<T>,
    Tail: RewindSeq<T, Cons<T, Done>>,
    <Tail as Rewind<Cons<T, Done>>>::Output: Homogenous<T>,
 {
    proof fn lemma_rewind_seq(self, done: Done) {
        self.1.lemma_rewind_seq(Cons(self.0, done));
        let tail = self.1.spec_seq();
        assert(self.spec_seq().reverse() =~= tail.reverse().push(self.0));
        assert(tail.reverse() + (seq![self.0] + done.spec_seq()) =~= tail.reverse().push(self.0)
            + done.spec_seq());
    }
}

/// Reversing a list of one type reverses its sequence.
pub proof fn lemma_reverse_seq<T, L>(list: L) where
    L: RewindSeq<T, Nil>,
    <L as Rewind<Nil>>::Output: Homogenous<T>,

    ensures
        list.spec_reverse().spec_seq() == list.spec_seq().reverse(),
{
    list.lemma_rewind_seq(Nil);
    assert(list.spec_seq().reverse() + Seq::<T>::empty() =~= list.spec_seq().reverse());
}

/// Non-empty lists of one type on which popping takes the last element off
/// the sequence: proved for a list of one element, and for a longer list
/// from its tail.
pub trait PopSeq<T>: Homogenous<T> + Pop<Last = T> where Self::Remainder: Homogenous<T> {
    /// Popping returns the last element of the sequence and leaves the
    /// elements before it.
    proof fn lemma_pop_seq(self)
        ensures
            self.spec_seq().len() > 0,
            self.spec_pop().0 == self.spec_seq().last(),
            self.spec_pop().1.spec_seq() == self.spec_seq().drop_last(),
    ;
}

impl<T> PopSeq<T> for Cons<T, Nil> {
    proof fn lemma_pop_seq(self) {
        assert(self.spec_seq() =~= seq![self.0]);
        assert(seq![self.0].drop_last() =~= Seq::<T>::empty());
    }
}

impl<T, Tail> PopSeq<T> for Cons<T, Tail> where
    Tail: PopSeq<T>,
    Tail::Remainder: Homogenous<T>,
 {
    proof fn lemma_pop_seq(self) {
        self.1.lemma_pop_seq();
        let tail = self.1.spec_seq();
        assert(self.spec_seq().last() == tail.last());
        assert(self.spec_pop().1.spec_seq() =~= self.spec_seq().drop_last());
    }
}

/// Lists of one type in which the index points to the element of the
/// sequence at the position that the index stands for: proved for the head,
/// and for an element of the tail from the tail.
pub trait GetSeq<T, I>: Homogenous<T> + Get<T, I> where I: Index {
    /// The element that is retrieved is the element of the sequence at the
    /// index's number, and setting it updates the sequence at that position.
    proof fn lemma_get_seq(self, value: T)
        ensures
            I::spec_value() < self.spec_seq().len(),
            self.spec_get() == self.spec_seq()[I::spec_value() as int],
            self.spec_set(value).spec_seq() == self.spec_seq().update(
                I::spec_value() as int,
                value,
            ),
    ;
}

impl<T, Tail> GetSeq<T, Here> for Cons<T, Tail> where Tail: Homogenous<T> {
    proof fn lemma_get_seq(self, value: T) {
        assert(self.spec_set(value).spec_seq() =~= self.spec_seq().update(0, value));
    }
}

impl<T, Tail, TailIndex> GetSeq<T, There<TailIndex>> for Cons<T, Tail> where
    Tail: GetSeq<T, TailIndex>,
    TailIndex: Index,
 {
    proof fn lemma_get_seq(self, value: T) {
        self.1.lemma_get_seq(value);
        let at = TailIndex::spec_value() as int;
        let set = Get::<T, There<TailIndex>>::spec_set(self, value);
        assert(set.spec_seq() =~= self.spec_seq().update(at + 1, value));
    }
}

/// Lists of one type from which removing takes the element at the index's
/// number out of the sequence: proved for the head, and for an element of
/// the tail from the tail.
pub trait RemoveSeq<T, I>: Homogenous<T> + Remove<T, I> where
    I: Index,
    Self::Remainder: Homogenous<T>,
 {
    /// Removing leaves the sequence without the element at the index's
    /// number, and restoring inserts an element at that position.
    proof fn lemma_remove_seq(self, value: T, remainder: Self::Remainder)
        ensures
            I::spec_value() < self.spec_seq().len(),
            self.spec_remove().0 == self.spec_seq()[I::spec_value() as int],
            self.spec_remove().1.spec_seq() == self.spec_seq().remove(I::spec_value() as int),
            I::spec_value() <= remainder.spec_seq().len() ==> Self::spec_restore(
                value,
                remainder,
            ).spec_seq() == remainder.spec_seq().insert(I::spec_value() as int, value),
    ;
}

impl<T, Tail> RemoveSeq<T, Here> for Cons<T, Tail> where Tail: Homogenous<T> {
    proof fn lemma_remove_seq(self, value: T, remainder: Tail) {
        assert(self.1.spec_seq() =~= self.spec_seq().remove(0));
        assert(Cons(value, remainder).spec_seq() =~= remainder.spec_seq().insert(0, value));
    }
}

impl<T, Tail, TailIndex> RemoveSeq<T, There<TailIndex>> for Cons<T, Tail> where
    Tail: RemoveSeq<T, TailIndex>,
    TailIndex: Index,
    Tail::Remainder: Homogenous<T>,
 {
    proof fn lemma_remove_seq(self, value: T, remainder: Cons<T, Tail::Remainder>) {
        self.1.lemma_remove_seq(value, remainder.1);
        let at = TailIndex::spec_value() as int;
        let removed = Remove::<T, There<TailIndex>>::spec_remove(self);
        assert(removed.1.spec_seq() =~= self.spec_seq().remove(at + 1));
        if at + 1 <= remainder.spec_seq().len() {
            let restored = <Self as Remove<T, There<TailIndex>>>::spec_restore(value, remainder);
            assert(restored.spec_seq() =~= remainder.spec_seq().insert(at + 1, value));
        }
    }
}

/// Pairs of lists, each of one type, on which zipping pairs the elements of
/// the two sequences position by position: proved for two empty lists, and
/// for two non-empty lists from their tails.
pub trait ZipSeq<T, U, Other>: Homogenous<T> + Zip<Other> where
    Other: Homogenous<U>,
    Self::Output: Homogenous<(T, U)>,
 {
    /// The sequence of the zipped list is as long as either sequence, and
    /// holds at each position the pair of their elements at that position.
    proof fn lemma_zip_seq(self, other: Other)
        ensures
            self.spec_zip(other).spec_seq().len() == self.spec_seq().len(),
            other.spec_seq().len() == self.spec_seq().len(),
            forall|at: int|
                0 <= at < self.spec_seq().len() ==> #[trigger] self.spec_zip(other).spec_seq()[at]
                    == (self.spec_seq()[at], other.spec_seq()[at]),
    ;
}

impl<T, U> ZipSeq<T, U, Nil> for Nil {
    proof fn lemma_zip_seq(self, other: Nil) {
    }
}

impl<T, U, Tail, OTail> ZipSeq<T, U, Cons<U, OTail>> for Cons<T, Tail> where
    Tail: ZipSeq<T, U, OTail>,
    OTail: Homogenous<U>,
    Tail::Output: Homogenous<(T, U)>,
 {
    proof fn lemma_zip_seq(self, other: Cons<U, OTail>) {
        self.1.lemma_zip_seq(other.1);
        let zipped = self.spec_zip(other).spec_seq();
        assert forall|at: int| 0 <= at < self.spec_seq().len() implies #[trigger] zipped[at] == (
            self.spec_seq()[at],
            other.spec_seq()[at],
        ) by {
            if at > 0 {
                assert(zipped[at] == self.1.spec_zip(other.1).spec_seq()[at - 1]);
                assert(self.spec_seq()[at] == self.1.spec_seq()[at - 1]);
                assert(other.spec_seq()[at] == other.1.spec_seq()[at - 1]);
            }
        }
    }
}

/// Lists of one type that are made from a vector with the items of the
/// vector as their sequence: proved for [`Nil`], and for a [`Cons`] from its
/// tail.
pub trait FromVecSeq<T>: Homogenous<T> + FromVec<T> {
    /// Every list of the type has as many elements as the type has slots,
    /// and the list made from that many items has the items as its sequence.
    proof fn lemma_from_vec_seq(self, items: Seq<T>)
        ensures
            self.spec_len() == Self::spec_slots(),
            items.len() == Self::spec_slots() ==> Self::spec_from_items(items).spec_seq() == items,
    ;
}

impl<T> FromVecSeq<T> for Nil {
    proof fn lemma_from_vec_seq(self, items: Seq<T>) {
        if items.len() == 0 {
            assert(Seq::<T>::empty() =~= items);
        }
    }
}

impl<T, Tail> FromVecSeq<T> for Cons<T, Tail> where Tail: FromVecSeq<T> {
    proof fn lemma_from_vec_seq(self, items: Seq<T>) {
        self.1.lemma_from_vec_seq(items.drop_first());
        if items.len() == Self::spec_slots() {
            assert(Self::spec_from_items(items).spec_seq() =~= items);
        }
    }
}

/// Non-empty lists of one type that are iterated in the order of their
/// sequence: proved for a list of one element, and for a longer list from
/// its tail.
pub trait PrepareIterSeq<T>: Homogenous<T> + PrepareIter where
    Self::Output: ReadyIter<Item = T>,
 {
    /// The items that the iteration hands out are the sequence of the list.
    proof fn lemma_items_seq(self)
        ensures
            self.spec_items() == self.spec_seq(),
    ;
}

impl<T> PrepareIterSeq<T> for Cons<T, Nil> {
    proof fn lemma_items_seq(self) {
        assert(self.spec_items() =~= self.spec_seq());
    }
}

impl<T, Tail> PrepareIterSeq<T> for Cons<T, Tail> where
    Tail: PrepareIterSeq<T>,
    Tail::Output: ReadyIter<Item = T>,
 {
    proof fn lemma_items_seq(self) {
        self.1.lemma_items_seq();
    }
}

} // verus!
