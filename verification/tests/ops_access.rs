use hlist2::ops::{
    Get, GetMany, Here, Inc, Provide, ProvideOnce, Remove, RemoveMany, Shuffle, There, ToMut, ToRef,
};
use hlist2::{Cons, HList, Nil};

#[test]
fn get_retrieves_by_type() {
    let list = Cons(0_i32, Cons(1_i64, Nil));
    let a: i64 = *list.get();
    assert_eq!(a, 1);
}

#[test]
fn get_mut_writes_by_type() {
    let mut list = Cons(0_i32, Cons(1_i64, Nil));
    *list.get_mut() = 5_i32;
    let a: i32 = *list.get();
    assert_eq!(a, 5);
    assert_eq!(list, Cons(5, Cons(1, Nil)));
}

#[test]
fn get_of_repeated_type_needs_the_index() {
    let list = Cons(10_u8, Cons("middle", Cons(20_u8, Nil)));
    let first: &u8 = Get::<u8, Here>::get(&list);
    let second: &u8 = Get::<u8, There<There<Here>>>::get(&list);
    assert_eq!(*first, 10);
    assert_eq!(*second, 20);
}

#[test]
fn get_mut_of_repeated_type_changes_only_that_element() {
    let mut list = Cons(10_u8, Cons("middle", Cons(20_u8, Nil)));
    *Get::<u8, There<There<Here>>>::get_mut(&mut list) = 99;
    assert_eq!(list, Cons(10, Cons("middle", Cons(99, Nil))));
}

#[test]
fn provide_retrieves_by_type() {
    let list = Cons(0_i32, Cons(1_i64, Nil));
    let a: i64 = *list.provide();
    assert_eq!(a, 1);
}

#[test]
fn provide_mut_writes_by_type() {
    let mut list = Cons(0_i32, Cons(1_i64, Nil));
    *list.provide_mut() = 5_i32;
    let a: i32 = *list.provide();
    assert_eq!(a, 5);
}

#[test]
fn provide_once_moves_element_out() {
    let list = Cons(0_i32, Cons(1_i64, Cons(false, Nil)));
    let (a, remainder): (i64, _) = list.provide_once();
    assert_eq!(a, 1);
    assert_eq!(remainder, Cons(0, Cons(false, Nil)));
}

#[test]
fn remove_moves_element_out() {
    let list = Cons(0_i32, Cons(1_i64, Cons(false, Nil)));
    let (a, remainder): (i64, _) = list.remove();
    assert_eq!(a, 1);
    assert_eq!(remainder, Cons(0, Cons(false, Nil)));
}

#[test]
fn remove_head_and_last() {
    let list = Cons(0_i32, Cons(1_i64, Cons(false, Nil)));
    let (a, remainder): (i32, _) = list.remove();
    assert_eq!(a, 0);
    assert_eq!(remainder, Cons(1_i64, Cons(false, Nil)));
    let (b, remainder): (bool, _) = list.remove();
    assert_eq!(b, false);
    assert_eq!(remainder, Cons(0, Cons(1_i64, Nil)));
}

#[test]
fn remove_of_repeated_type_needs_the_index() {
    let list = Cons(10_u8, Cons("middle", Cons(20_u8, Nil)));
    let (first, rest) = Remove::<u8, Here>::remove(list);
    assert_eq!(first, 10);
    assert_eq!(rest, Cons("middle", Cons(20, Nil)));
    let (second, rest) = Remove::<u8, There<There<Here>>>::remove(list);
    assert_eq!(second, 20);
    assert_eq!(rest, Cons(10, Cons("middle", Nil)));
}

#[test]
fn remove_takes_one_from_len() {
    let list = Cons(0_i32, Cons(1_i64, Cons(false, Nil)));
    let (_, remainder): (i64, _) = list.remove();
    assert_eq!(remainder.len() + 1, list.len());
}

#[test]
fn remove_head_then_prepend_reconstructs() {
    let list = Cons(0_i32, Cons(1_i64, Cons(false, Nil)));
    let (head, remainder): (i32, _) = list.remove();
    assert_eq!(hlist2::ops::Prepend::prepend(remainder, head), list);
}

#[test]
fn remove_middle_then_insert_at_its_place_reconstructs() {
    let list = Cons(0_i32, Cons(1_i64, Cons(false, Nil)));
    let (middle, remainder): (i64, _) = list.remove();
    let (head, tail) = hlist2::ops::PopFront::pop_front(remainder);
    let rebuilt = hlist2::ops::Prepend::prepend(hlist2::ops::Prepend::prepend(tail, middle), head);
    assert_eq!(rebuilt, list);
}

#[test]
fn remove_many_moves_elements_out_in_requested_order() {
    let list = Cons(1, Cons(2.0_f32, Cons(true, Cons("hello world", Nil))));
    let (list, remainder): (Cons<f32, Cons<i32, Cons<&str, Nil>>>, _) = list.remove_many();
    assert_eq!(list, Cons(2.0, Cons(1, Cons("hello world", Nil))));
    assert_eq!(remainder, Cons(true, Nil));
}

#[test]
fn remove_many_of_nothing_leaves_the_list() {
    let list = Cons(1, Cons(true, Nil));
    let (none, remainder): (Nil, _) = list.remove_many();
    assert_eq!(none, Nil);
    assert_eq!(remainder, list);
}

#[test]
fn remove_many_splits_len() {
    let list = Cons(1, Cons(2.0_f32, Cons(true, Cons("hello world", Nil))));
    let (taken, remainder): (Cons<&str, Cons<i32, Nil>>, _) = list.remove_many();
    assert_eq!(taken.len() + remainder.len(), list.len());
    assert_eq!(remainder, Cons(2.0, Cons(true, Nil)));
}

#[test]
fn shuffle_changes_order() {
    let list = Cons(1, Cons(2.0_f32, Cons(true, Cons("hello world", Nil))));
    let shuffled: Cons<bool, Cons<i32, Cons<&str, Cons<f32, Nil>>>> = list.shuffle();
    assert_eq!(shuffled, Cons(true, Cons(1, Cons("hello world", Cons(2.0, Nil)))));
}

#[test]
fn shuffle_back_reconstructs() {
    let list = Cons(1, Cons(2.0_f32, Cons(true, Cons("hello world", Nil))));
    let shuffled: Cons<bool, Cons<i32, Cons<&str, Cons<f32, Nil>>>> = list.shuffle();
    let back: Cons<i32, Cons<f32, Cons<bool, Cons<&str, Nil>>>> = shuffled.shuffle();
    assert_eq!(back, list);
    assert_eq!(shuffled.len(), list.len());
}

#[test]
fn get_many_follows_requested_order() {
    let list = Cons(1, Cons(2.0_f32, Cons(true, Cons("hello world", Nil))));
    let many = GetMany::<Cons<&str, Cons<f32, Nil>>, _>::get_many(&list);
    assert_eq!(many, Cons(&"hello world", Cons(&2.0, Nil)));
}

#[test]
fn get_many_mut_follows_requested_order() {
    let mut list = Cons(1, Cons(2.0_f32, Cons(true, Cons("hello world", Nil))));
    let many_mut = GetMany::<Cons<&str, Cons<f32, Nil>>, _>::get_many_mut(&mut list);
    assert_eq!(many_mut, Cons(&mut "hello world", Cons(&mut 2.0, Nil)));
}

#[test]
fn get_many_mut_writes_reach_the_list() {
    let mut list = Cons(1, Cons(2.0_f32, Cons(true, Cons("hello world", Nil))));
    let Cons(text, Cons(number, Nil)) =
        GetMany::<Cons<&str, Cons<f32, Nil>>, _>::get_many_mut(&mut list);
    *text = "bye";
    *number = 4.0;
    assert_eq!(list, Cons(1, Cons(4.0, Cons(true, Cons("bye", Nil)))));
}

#[test]
fn to_ref_gives_references_in_order() {
    let list = Cons(1, Cons(2.0, Cons(false, Nil)));
    assert_eq!(list.to_ref(), Cons(&1, Cons(&2.0, Cons(&false, Nil))));
    assert_eq!(ToRef::to_ref(&Nil), Nil);
}

#[test]
fn to_mut_gives_mutable_references_in_order() {
    let mut list = Cons(1, Cons(2.0, Cons(false, Nil)));
    assert_eq!(
        ToRef::to_mut(&mut list),
        Cons(&mut 1, Cons(&mut 2.0, Cons(&mut false, Nil)))
    );
}

#[test]
fn to_mut_writes_reach_every_element() {
    let mut list = Cons(1, Cons(2.0, Cons(false, Nil)));
    let Cons(a, Cons(b, Cons(c, Nil))) = ToRef::to_mut(&mut list);
    *a = 10;
    *b = 20.0;
    *c = true;
    assert_eq!(list, Cons(10, Cons(20.0, Cons(true, Nil))));
}

#[test]
fn to_mut_trait_gives_mutable_references_in_order() {
    let mut list = Cons(1, Cons(2.0, Cons(false, Nil)));
    assert_eq!(
        ToMut::to_mut(&mut list),
        Cons(&mut 1, Cons(&mut 2.0, Cons(&mut false, Nil)))
    );
    let Cons(a, Cons(_, Cons(c, Nil))) = ToMut::to_mut(&mut list);
    *a = 3;
    *c = true;
    assert_eq!(list, Cons(3, Cons(2.0, Cons(true, Nil))));
}

#[test]
fn index_operator_here() {
    let list = Cons(1, Cons(2.0, Cons(false, Nil)));
    let a = list[Here];
    assert_eq!(a, 1);
}

#[test]
fn index_mut_operator_here() {
    let mut list = Cons(1, Cons(2.0, Cons(false, Nil)));
    list[Here] = 5;

    let a = list[Here];
    assert_eq!(a, 5);
}

#[test]
fn index_operator_in_the_tail() {
    let list = Cons(1, Cons(2.0, Cons(false, Nil)));

    let index = Here.inc();
    assert_eq!(list[index], 2.0);

    let index = index.inc();
    assert_eq!(list[index], false);
}

#[test]
fn index_mut_operator_in_the_tail() {
    let mut list = Cons(1, Cons(2.0_f32, Cons(false, Nil)));

    let index = Here.inc();
    list[index] = 16_f32.sqrt();

    let b = list[index];
    assert_eq!(b, 4.0);
    assert_eq!(list, Cons(1, Cons(4.0, Cons(false, Nil))));
}
