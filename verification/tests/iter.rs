use hlist2::iter::{FromVec, FromVecError, IntoIter, PrepareIter, ReadyIter};
use hlist2::ops::ToRef;
use hlist2::{Cons, HList, Nil};

type Five<T> = Cons<T, Cons<T, Cons<T, Cons<T, Cons<T, Nil>>>>>;

#[test]
fn into_iter_hands_out_from_the_first() {
    let mut iter = IntoIter::new(Cons(1, Cons(2, Cons(3, Cons(4, Cons(5, Nil))))));
    assert_eq!(iter.len(), 5);

    let item = iter.next();
    assert_eq!(item, Some(1));
    assert_eq!(iter.len(), 4);
}

#[test]
fn into_iter_drains_in_order_and_stays_empty() {
    let mut iter = IntoIter::new(Cons(1, Cons(2, Cons(3, Nil))));
    assert_eq!(iter.size_hint(), (3, Some(3)));
    assert_eq!(iter.next(), Some(1));
    assert_eq!(iter.size_hint(), (2, Some(2)));
    assert_eq!(iter.next(), Some(2));
    assert_eq!(iter.len(), 1);
    assert_eq!(iter.next(), Some(3));
    assert_eq!(iter.len(), 0);
    assert_eq!(iter.next(), None);
    assert_eq!(iter.next(), None);
    assert_eq!(iter.len(), 0);
    assert_eq!(iter.size_hint(), (0, Some(0)));
}

#[test]
fn into_iter_of_one_element() {
    let mut iter = IntoIter::new(Cons("only", Nil));
    assert_eq!(iter.len(), 1);
    assert_eq!(iter.next(), Some("only"));
    assert_eq!(iter.next(), None);
}

#[test]
fn into_iter_over_references() {
    let list = Cons(1, Cons(2, Cons(3, Cons(4, Cons(5, Nil)))));
    let mut iter = IntoIter::new(list.to_ref());
    let mut seen = Vec::new();
    while let Some(item) = iter.next() {
        seen.push(*item);
    }
    assert_eq!(seen, vec![1, 2, 3, 4, 5]);
    assert_eq!(list, Cons(1, Cons(2, Cons(3, Cons(4, Cons(5, Nil))))));
}

#[test]
fn into_iter_over_mutable_references() {
    let mut list = Cons(1, Cons(2, Cons(3, Cons(4, Cons(5, Nil)))));
    let mut iter = IntoIter::new(ToRef::to_mut(&mut list));
    while let Some(item) = iter.next() {
        *item += 10;
    }
    assert_eq!(list, Cons(11, Cons(12, Cons(13, Cons(14, Cons(15, Nil))))));
}

#[test]
fn prepare_iter_fills_every_slot() {
    let prepared = Cons(1, Cons(2, Nil)).prepare_iter();
    assert_eq!(prepared, Cons(Some(1), Cons(Some(2), Nil)));
    assert_eq!(prepared.remaining(), 2);
    assert_eq!(prepared.len(), 2);
}

#[test]
fn ready_iter_takes_the_first_filled_slot() {
    let mut slots = Cons(None, Cons(Some(2), Cons(None, Cons(Some(4), Nil))));
    assert_eq!(slots.remaining(), 2);
    assert_eq!(slots.next(), Some(2));
    assert_eq!(slots, Cons(None, Cons(None, Cons(None, Cons(Some(4), Nil)))));
    assert_eq!(slots.remaining(), 1);
    assert_eq!(slots.next(), Some(4));
    assert_eq!(slots.next(), None);
    assert_eq!(slots.remaining(), 0);
    assert_eq!(slots.len(), 4);
}

#[test]
fn from_vec_of_five_fills_five_slots() {
    let list: Five<i32> = FromVec::from_vec(vec![42; 5]);
    assert_eq!(list, Cons(42, Cons(42, Cons(42, Cons(42, Cons(42, Nil))))));
}

#[test]
fn from_vec_keeps_order() {
    let list: Cons<&str, Cons<&str, Cons<&str, Nil>>> = FromVec::from_vec(vec!["a", "b", "c"]);
    assert_eq!(list, Cons("a", Cons("b", Cons("c", Nil))));
}

#[test]
fn from_vec_of_nothing_is_nil() {
    let list: Nil = FromVec::from_vec(Vec::<i32>::new());
    assert_eq!(list, Nil);
}

#[test]
fn from_vec_then_iterate_gives_the_items_back() {
    let items = vec![3, 1, 4, 1, 5];
    let list: Five<i32> = FromVec::from_vec(items.clone());
    let mut iter = IntoIter::new(list);
    let mut back = Vec::new();
    while let Some(item) = iter.next() {
        back.push(item);
    }
    assert_eq!(back, items);
}

#[test]
fn try_from_vec_of_five_fills_five_slots() {
    let list: Result<Five<i32>, FromVecError> = FromVec::try_from_vec(vec![42; 5]);
    assert_eq!(list, Ok(Cons(42, Cons(42, Cons(42, Cons(42, Cons(42, Nil)))))));
}

#[test]
fn try_from_vec_of_one_is_not_enough_for_five_slots() {
    let list: Result<Five<i32>, FromVecError> = FromVec::try_from_vec(vec![42; 1]);
    assert_eq!(list, Err(FromVecError::NotEnough));
}

#[test]
fn try_from_vec_of_ten_is_too_many_for_five_slots() {
    let list: Result<Five<i32>, FromVecError> = FromVec::try_from_vec(vec![42; 10]);
    assert_eq!(list, Err(FromVecError::TooMany));
}

#[test]
fn try_from_vec_at_the_edges() {
    let none: Result<Nil, FromVecError> = FromVec::try_from_vec(Vec::<i32>::new());
    assert_eq!(none, Ok(Nil));
    let extra: Result<Nil, FromVecError> = FromVec::try_from_vec(vec![1]);
    assert_eq!(extra, Err(FromVecError::TooMany));
    let empty: Result<Five<i32>, FromVecError> = FromVec::try_from_vec(Vec::new());
    assert_eq!(empty, Err(FromVecError::NotEnough));
    let four: Result<Five<i32>, FromVecError> = FromVec::try_from_vec(vec![1, 2, 3, 4]);
    assert_eq!(four, Err(FromVecError::NotEnough));
    let six: Result<Five<i32>, FromVecError> = FromVec::try_from_vec(vec![1, 2, 3, 4, 5, 6]);
    assert_eq!(six, Err(FromVecError::TooMany));
    let five: Result<Five<i32>, FromVecError> = FromVec::try_from_vec(vec![1, 2, 3, 4, 5]);
    assert_eq!(five, Ok(Cons(1, Cons(2, Cons(3, Cons(4, Cons(5, Nil)))))));
}

#[test]
fn next_on_the_iterator_leaves_later_elements_in_place() {
    let mut slots = Cons(1, Cons(2, Cons(3, Nil))).prepare_iter();
    assert_eq!(slots.next(), Some(1));
    assert_eq!(slots, Cons(None, Cons(Some(2), Cons(Some(3), Nil))));
    assert_eq!(slots.next(), Some(2));
    assert_eq!(slots, Cons(None, Cons(None, Cons(Some(3), Nil))));
    assert_eq!(slots.next(), Some(3));
    assert_eq!(slots.next(), None);
    assert_eq!(slots, Cons(None, Cons(None, Cons(None, Nil))));
}
