use hlist2::{Cons, HList, Len, Nil};

#[test]
fn len_counts_cons_cells() {
    assert_eq!(HList::len(&Nil), 0);
    assert_eq!(Cons(1, Nil).len(), 1);
    assert_eq!(Cons(1, Cons(2.0, Cons(true, Cons("hello world", Nil)))).len(), 4);
}

#[test]
fn len_constant_counts_cons_cells() {
    assert_eq!(<Nil as Len>::LEN, 0);
    assert_eq!(<Cons<i32, Nil> as Len>::LEN, 1);
    assert_eq!(<Cons<i32, Cons<f64, Cons<bool, Cons<&str, Nil>>>> as Len>::LEN, 4);
}

#[test]
fn len_constant_agrees_with_len() {
    let list = Cons(1u8, Cons("two", Cons(3.0f32, Nil)));
    assert_eq!(list.len(), <Cons<u8, Cons<&str, Cons<f32, Nil>>> as Len>::LEN);
}

#[test]
fn is_empty_only_for_nil() {
    assert!(HList::is_empty(&Nil));
    assert!(!Cons(1, Cons(2.0, Cons(true, Nil))).is_empty());
}

#[test]
fn nil_new_len_is_empty() {
    let nil = Nil::new();
    assert!(nil.is_empty());
    assert_eq!(nil.len(), 0);
    assert_eq!(Nil::LEN, 0);
    assert_eq!(nil, Nil);
}

#[test]
fn cons_new() {
    let list = Cons::new(1, "hello world");
    assert_eq!(list, Cons(1, "hello world"));
}

#[test]
fn cons_into_head() {
    let list = Cons::new(1, "hello world");
    let head = list.into_head();
    assert_eq!(head, 1);
}

#[test]
fn cons_into_tail() {
    let list = Cons::new(1, "hello world");
    let tail = list.into_tail();
    assert_eq!(tail, "hello world");
}

#[test]
fn cons_head() {
    let list = Cons::new(1, "hello world");
    let head = list.head();
    assert_eq!(head, &1);
}

#[test]
fn cons_head_mut() {
    let mut list = Cons::new(1, "hello world");
    let head = list.head_mut();
    *head = 2;
    assert_eq!(list, Cons(2, "hello world"));
}

#[test]
fn cons_tail() {
    let list = Cons::new(1, "hello world");
    let tail = list.tail();
    assert_eq!(tail, &"hello world");
}

#[test]
fn cons_tail_mut() {
    let mut list = Cons::new(1, "hello world");
    let tail = list.tail_mut();
    *tail = "привет, мир";
    assert_eq!(list, Cons(1, "привет, мир"));
}

#[test]
fn cons_as_ref_and_as_mut() {
    let mut list = Cons(1, Cons(true, Nil));
    assert_eq!(AsRef::<Cons<i32, Cons<bool, Nil>>>::as_ref(&list), &Cons(1, Cons(true, Nil)));
    AsMut::<Cons<i32, Cons<bool, Nil>>>::as_mut(&mut list).0 = 7;
    assert_eq!(list, Cons(7, Cons(true, Nil)));
    let mut nil = Nil;
    assert_eq!(AsRef::<Nil>::as_ref(&nil), &Nil);
    assert_eq!(AsMut::<Nil>::as_mut(&mut nil), &mut Nil);
}

#[test]
fn cons_from_pair_and_back() {
    let list: Cons<i32, &str> = Cons::from((1, "tail"));
    assert_eq!(list, Cons(1, "tail"));
    let pair: (i32, &str) = list.into();
    assert_eq!(pair, (1, "tail"));
}

#[test]
fn equality_is_structural() {
    assert_eq!(Cons(1, Cons("a", Nil)), Cons(1, Cons("a", Nil)));
    assert_ne!(Cons(1, Cons("a", Nil)), Cons(1, Cons("b", Nil)));
    assert_ne!(Cons(1, Cons("a", Nil)), Cons(2, Cons("a", Nil)));
    assert_eq!(Nil, Nil);
}

#[test]
fn ordering_is_lexicographic_head_first() {
    assert!(Cons(1, Cons(9, Nil)) < Cons(2, Cons(0, Nil)));
    assert!(Cons(1, Cons(1, Nil)) < Cons(1, Cons(2, Nil)));
    assert!(Cons(3, Cons(0, Nil)) > Cons(2, Cons(9, Nil)));
    assert!(Nil <= Nil);
}

#[test]
fn default_is_list_of_defaults() {
    let list: Cons<i32, Cons<bool, Cons<&str, Nil>>> = Default::default();
    assert_eq!(list, Cons(0, Cons(false, Cons("", Nil))));
}

#[test]
fn clone_and_copy_keep_elements() {
    let list = Cons(1, Cons(2.5, Nil));
    let copy = list;
    assert_eq!(list.clone(), copy);
}
