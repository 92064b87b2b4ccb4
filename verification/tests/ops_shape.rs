use hlist2::ops::{Append, Extend, Flatten, Pop, PopFront, Prepend, Reverse, Rewind, Unzip, Zip};
use hlist2::{Cons, HList, Nil};

#[test]
fn append_places_element_at_the_end() {
    let list = Cons(1, Cons(2.0, Cons(true, Nil)));
    assert_eq!(
        list.append("hello world"),
        Cons(1, Cons(2.0, Cons(true, Cons("hello world", Nil))))
    );
}

#[test]
fn append_to_nil() {
    assert_eq!(Nil.append(5), Cons(5, Nil));
}

#[test]
fn append_adds_one_to_len() {
    let list = Cons(1, Cons("two", Nil));
    assert_eq!(list.append(3.0).len(), list.len() + 1);
}

#[test]
fn prepend_places_element_at_the_beginning() {
    let list = Cons(2.0, Cons(true, Cons("hello world", Nil)));
    assert_eq!(
        list.prepend(1),
        Cons(1, Cons(2.0, Cons(true, Cons("hello world", Nil))))
    );
}

#[test]
fn pop_removes_the_last_element() {
    let list = Cons(1, Cons(2.0, Cons(true, Nil)));
    let (elem, list) = list.pop();
    assert_eq!(list, Cons(1, Cons(2.0, Nil)));
    assert_eq!(elem, true);
}

#[test]
fn pop_of_one_element_leaves_nil() {
    let (elem, list) = Cons("only", Nil).pop();
    assert_eq!(elem, "only");
    assert_eq!(list, Nil);
}

#[test]
fn pop_front_removes_the_first_element() {
    let list = Cons(1, Cons(2.0, Cons(true, Nil)));
    let (elem, list) = list.pop_front();
    assert_eq!(elem, 1);
    assert_eq!(list, Cons(2.0, Cons(true, Nil)));
}

#[test]
fn append_then_pop_round_trip() {
    let list = Cons(1, Cons("two", Cons(3.0, Nil)));
    let (elem, rest) = list.append('x').pop();
    assert_eq!(elem, 'x');
    assert_eq!(rest, list);
    let (elem, rest) = Nil.append(7u8).pop();
    assert_eq!(elem, 7u8);
    assert_eq!(rest, Nil);
}

#[test]
fn prepend_then_pop_front_round_trip() {
    let list = Cons(1, Cons("two", Cons(3.0, Nil)));
    let (elem, rest) = list.prepend('x').pop_front();
    assert_eq!(elem, 'x');
    assert_eq!(rest, list);
    let (elem, rest) = Nil.prepend(7u8).pop_front();
    assert_eq!(elem, 7u8);
    assert_eq!(rest, Nil);
}

#[test]
fn extend_places_other_list_at_the_end() {
    let first = Cons(1, Cons(2.0, Nil));
    let second = Cons(true, Cons("hello world", Nil));
    assert_eq!(
        first.extend(second),
        Cons(1, Cons(2.0, Cons(true, Cons("hello world", Nil))))
    );
    assert_eq!(
        second.extend(first),
        Cons(true, Cons("hello world", Cons(1, Cons(2.0, Nil))))
    );
}

#[test]
fn extend_with_nil_on_either_side() {
    let list = Cons(1, Cons('a', Nil));
    assert_eq!(list.extend(Nil), list);
    assert_eq!(Nil.extend(list), list);
    assert_eq!(Nil.extend(Nil), Nil);
}

#[test]
fn extend_adds_lengths() {
    let first = Cons(1, Cons(2.0, Nil));
    let second = Cons(true, Cons("hello world", Cons('c', Nil)));
    assert_eq!(first.extend(second).len(), 5);
}

#[test]
fn flatten_removes_one_level() {
    let data = Cons(
        Cons(1, Cons(2.0, Cons(true, Cons("hello world", Nil)))),
        Cons(Cons(5, Cons(6.0, Nil)), Nil),
    );
    let flattened = data.flatten();
    assert_eq!(
        flattened,
        Cons(1, Cons(2.0, Cons(true, Cons("hello world", Cons(5, Cons(6.0, Nil))))))
    );
}

#[test]
fn flatten_three_levels_takes_two_calls() {
    let first = Cons(Cons(0, Cons(1, Nil)), Cons(Cons(2, Cons(3, Nil)), Nil));
    let second = Cons(Cons(4, Cons(5, Nil)), Cons(Cons(6, Cons(7, Nil)), Nil));
    let third = Cons(Cons(8, Cons(9, Nil)), Nil);
    let d3 = Cons(first, Cons(second, Cons(third, Nil)));

    let d2 = d3.flatten();
    let d2_back = Cons(Cons(6, Cons(7, Nil)), Cons(Cons(8, Cons(9, Nil)), Nil));
    let d2_middle = Cons(Cons(2, Cons(3, Nil)), Cons(Cons(4, Cons(5, Nil)), d2_back));
    assert_eq!(d2, Cons(Cons(0, Cons(1, Nil)), d2_middle));
    assert_eq!(d2.len(), 5);

    let d1 = d3.flatten().flatten();
    let d1_back = Cons(6, Cons(7, Cons(8, Cons(9, Nil))));
    let d1_middle = Cons(3, Cons(4, Cons(5, d1_back)));
    assert_eq!(d1, Cons(0, Cons(1, Cons(2, d1_middle))));
    assert_eq!(d1.len(), 10);
}

#[test]
fn flatten_of_nil_and_of_empty_lists() {
    assert_eq!(Nil.flatten(), Nil);
    assert_eq!(Cons(Nil, Cons(Nil, Nil)).flatten(), Nil);
    assert_eq!(Cons(Nil, Cons(Cons(1, Nil), Cons(Nil, Nil))).flatten(), Cons(1, Nil));
}

#[test]
fn reverse_gives_the_opposite_order() {
    let list = Cons(1, Cons(2.0, Cons(true, Cons("hello world", Nil))));
    assert_eq!(
        list.reverse(),
        Cons("hello world", Cons(true, Cons(2.0, Cons(1, Nil))))
    );
}

#[test]
fn reverse_of_nil_and_of_one() {
    assert_eq!(Nil.reverse(), Nil);
    assert_eq!(Cons(1, Nil).reverse(), Cons(1, Nil));
}

#[test]
fn reverse_twice_is_identity() {
    let list = Cons(1, Cons(2.0, Cons(true, Cons("hello world", Nil))));
    assert_eq!(list.reverse().reverse(), list);
    assert_eq!(Nil.reverse().reverse(), Nil);
}

#[test]
fn rewind_moves_elements_in_front_of_done() {
    let list = Cons(1, Cons(2, Nil));
    let done = Cons('a', Cons('b', Nil));
    assert_eq!(list.rewind(done), Cons(2, Cons(1, Cons('a', Cons('b', Nil)))));
    assert_eq!(Nil.rewind(done), done);
}

#[test]
fn zip_merges_into_pairs() {
    let first = Cons(1, Cons(2, Cons(3, Nil)));
    let second = Cons(4, Cons(5, Cons(6, Nil)));

    let zipped = first.zip(second);
    assert_eq!(zipped, Cons((1, 4), Cons((2, 5), Cons((3, 6), Nil))));
}

#[test]
fn zip_of_different_types() {
    let zipped = Cons(1, Cons("two", Nil)).zip(Cons('a', Cons(2.5, Nil)));
    assert_eq!(zipped, Cons((1, 'a'), Cons(("two", 2.5), Nil)));
    assert_eq!(Nil.zip(Nil), Nil);
}

#[test]
fn unzip_splits_pairs() {
    let list = Cons((1, 2), Cons((3, 4), Cons((5, 6), Nil)));
    let (first, second) = list.unzip();

    assert_eq!(first, Cons(1, Cons(3, Cons(5, Nil))));
    assert_eq!(second, Cons(2, Cons(4, Cons(6, Nil))));
}

#[test]
fn unzip_of_nil() {
    assert_eq!(Nil.unzip(), (Nil, Nil));
}

#[test]
fn zip_then_unzip_round_trip() {
    let first = Cons(1, Cons("two", Cons(3.0, Nil)));
    let second = Cons('a', Cons(false, Cons(9u8, Nil)));
    assert_eq!(first.zip(second).unzip(), (first, second));
}
