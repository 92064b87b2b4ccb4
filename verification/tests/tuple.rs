use hlist2::convert::FromHList;
use hlist2::tuple::{IntoHList, IntoTuple};
use hlist2::{Cons, Nil};

#[test]
fn list_into_tuple_by_from() {
    let list = Cons(1, Cons(2.0, Cons(true, Cons("hello world", Nil))));
    let tuple: (_, _, _, _) = list.into();
    assert_eq!(tuple, (1, 2.0, true, "hello world"));
}

#[test]
fn list_into_tuple() {
    let list = Cons(1, Cons(2.0, Cons(true, Cons("hello world", Nil))));
    let tuple = list.into_tuple();
    assert_eq!(tuple, (1, 2.0, true, "hello world"));
}

#[test]
fn tuple_into_hlist() {
    let tuple = (1, 2.0, true, "hello world");
    assert_eq!(
        tuple.into_hlist(),
        Cons(1, Cons(2.0, Cons(true, Cons("hello world", Nil))))
    );
}

#[test]
fn tuple_into_list_by_from() {
    let list: Cons<i32, Cons<char, Nil>> = From::from((1, 'a'));
    assert_eq!(list, Cons(1, Cons('a', Nil)));
}

#[test]
fn empty_and_single() {
    assert_eq!(Nil.into_tuple(), ());
    assert_eq!(().into_hlist(), Nil);
    assert_eq!(Cons(7, Nil).into_tuple(), (7,));
    assert_eq!((7,).into_hlist(), Cons(7, Nil));
}

#[test]
fn tuple_into_tuple_and_list_into_hlist_are_identity() {
    assert_eq!((1, 'a').into_tuple(), (1, 'a'));
    assert_eq!(Cons(1, Cons('a', Nil)).into_hlist(), Cons(1, Cons('a', Nil)));
}

#[test]
fn twelve_elements_both_ways() {
    let tuple = (1u8, 2u16, 3u32, 4u64, 5i8, 6i16, 7i32, 8i64, 'i', "j", true, 12.0f32);
    let back = Cons(7i32, Cons(8i64, Cons('i', Cons("j", Cons(true, Cons(12.0f32, Nil))))));
    let list = Cons(1u8, Cons(2u16, Cons(3u32, Cons(4u64, Cons(5i8, Cons(6i16, back))))));
    assert_eq!(tuple.into_hlist(), list);
    assert_eq!(list.into_tuple(), tuple);
}

#[test]
fn round_trip_keeps_order_and_values() {
    let tuple = (1, "two", 3.0);
    assert_eq!(tuple.into_hlist().into_tuple(), tuple);
    let list = Cons('a', Cons(2u8, Cons(false, Nil)));
    assert_eq!(list.into_tuple().into_hlist(), list);
}

#[test]
fn from_hlist_into_tuple() {
    let list = Cons(1, Cons(2.0, Cons(true, Cons("hello world", Nil))));
    let tuple: (_, _, _, _) = FromHList::from_hlist(list);
    assert_eq!(tuple, (1, 2.0, true, "hello world"));
}

#[test]
fn from_hlist_into_itself() {
    let list = Cons(1, Cons("a", Nil));
    let same: Cons<i32, Cons<&str, Nil>> = FromHList::from_hlist(list);
    assert_eq!(same, list);
}

#[test]
fn convert_into_hlist() {
    let tuple = (1, 2.0, true, "hello world");
    assert_eq!(
        hlist2::convert::IntoHList::into_hlist(tuple),
        Cons(1, Cons(2.0, Cons(true, Cons("hello world", Nil))))
    );
    let list = Cons(1, Cons('a', Nil));
    assert_eq!(hlist2::convert::IntoHList::into_hlist(list), list);
}
