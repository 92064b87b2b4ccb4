use hlist2::ops::{Fold, FoldFn, Folder, MapFn, MapList, Mapper, Pair, RFold};
use hlist2::{Cons, HList, Nil};

#[test]
fn map_homogenous_with_one_function() {
    let list = Cons(1, Cons(2, Cons(3, Nil)));
    assert_eq!(list.map(|x| 2 * x), Cons(2, Cons(4, Cons(6, Nil))));
}

#[test]
fn map_with_list_of_functions() {
    let list = Cons(1, Cons(2.0, Cons(true, Nil)));
    let list = list.map(Cons(|i| i + 2, Cons(|f| f - 2.0, Cons(|b: bool| !b, Nil))));
    assert_eq!(list, Cons(3, Cons(0.0, Cons(false, Nil))));
}

#[test]
fn map_of_nil() {
    assert_eq!(Nil.map(|x: i32| x + 1), Nil);
}

#[test]
fn map_keeps_len() {
    let list = Cons(1, Cons(2, Cons(3, Nil)));
    assert_eq!(list.map(|x| x as f64).len(), list.len());
}

#[test]
fn map_calls_in_order_of_elements() {
    let mut seen = Vec::new();
    let list = Cons(1, Cons(2, Cons(3, Nil)));
    let mapped = list.map(|x| {
        seen.push(x);
        seen.len()
    });
    assert_eq!(mapped, Cons(1, Cons(2, Cons(3, Nil))));
    assert_eq!(seen, vec![1, 2, 3]);
}

struct MyMapFn;

impl MapFn<i32> for MyMapFn {
    type Output = i32;

    fn map(&mut self, n: i32) -> i32 {
        n + 3
    }
}

impl MapFn<f32> for MyMapFn {
    type Output = f32;

    fn map(&mut self, f: f32) -> f32 {
        f + 8959.0
    }
}

impl MapFn<bool> for MyMapFn {
    type Output = bool;

    fn map(&mut self, b: bool) -> bool {
        !b
    }
}

#[test]
fn map_with_mapper() {
    let list = Cons(1, Cons(false, Cons(42f32, Nil)));
    let list = list.map(Mapper(MyMapFn));
    assert_eq!(list, Cons(4, Cons(true, Cons(9001.0, Nil))));
}

#[test]
fn map_with_mapper_by_reference() {
    let mut mapper = MyMapFn;
    let list = Cons(1, Cons(false, Nil));
    let list = list.map(Mapper(&mut mapper));
    assert_eq!(list, Cons(4, Cons(true, Nil)));
}

struct Counter(u32);

impl MapFn<&'static str> for Counter {
    type Output = (u32, &'static str);

    fn map(&mut self, text: &'static str) -> (u32, &'static str) {
        self.0 += 1;
        (self.0, text)
    }
}

#[test]
fn map_with_mapper_threads_its_state() {
    let list = Cons("a", Cons("b", Cons("c", Nil)));
    let list = list.map(Mapper(Counter(0)));
    assert_eq!(list, Cons((1, "a"), Cons((2, "b"), Cons((3, "c"), Nil))));
}

#[test]
fn fold_homogenous_with_one_function() {
    let list = Cons(1, Cons(2, Cons(3, Nil)));
    let sum = list.fold(0, |acc, x| acc + x);
    assert_eq!(sum, 6);
}

#[test]
fn fold_with_list_of_functions() {
    let list = Cons(1, Cons(false, Cons(42.0, Nil)));
    let folded = list.fold(
        1.0,
        Cons(
            |acc, i| i as f32 + acc,
            Cons(
                |acc, b: bool| if !b && acc > 42.0 { 9000.0 } else { 0.0 },
                Cons(|acc, f| f + acc, Nil),
            ),
        ),
    );
    assert_eq!(folded, 42.0);
}

#[test]
fn fold_of_nil_returns_init() {
    assert_eq!(Nil.fold(7, |acc: i32, x: i32| acc + x), 7);
    assert_eq!(Nil.rfold(7, |acc: i32, x: i32| acc + x), 7);
}

#[test]
fn fold_is_left_associative() {
    let list = Cons(1, Cons(2, Cons(3, Nil)));
    let text = list.fold(String::from("0"), |acc, x| format!("({acc} + {x})"));
    assert_eq!(text, "(((0 + 1) + 2) + 3)");
}

#[test]
fn rfold_homogenous_with_one_function() {
    let list = Cons(1, Cons(2, Cons(3, Cons(4, Cons(5, Nil)))));
    let zero = "0".to_string();
    let result = list.rfold(zero, |acc, x| format!("({x} + {acc})"));
    assert_eq!(result, "(1 + (2 + (3 + (4 + (5 + 0)))))")
}

#[test]
fn rfold_with_list_of_functions() {
    let list = Cons(1, Cons(false, Cons(42.0, Nil)));
    let folded = list.rfold(
        1.0,
        Cons(
            |acc, i| i as f32 + acc,
            Cons(
                |acc, b: bool| if !b && acc > 42.0 { 9000.0 } else { 0.0 },
                Cons(|acc, f| f + acc, Nil),
            ),
        ),
    );
    assert_eq!(folded, 9001.0);
}

struct MyFoldFn;

impl FoldFn<f32, i32> for MyFoldFn {
    fn fold(&mut self, acc: f32, i: i32) -> f32 {
        i as f32 + acc
    }
}

impl FoldFn<f32, bool> for MyFoldFn {
    fn fold(&mut self, acc: f32, b: bool) -> f32 {
        if !b && acc > 42.0 {
            9000.0
        } else {
            0.0
        }
    }
}

impl FoldFn<f32, f32> for MyFoldFn {
    fn fold(&mut self, acc: f32, f: f32) -> f32 {
        f + acc
    }
}

#[test]
fn rfold_with_folder() {
    let list = Cons(1, Cons(false, Cons(42.0_f32, Nil)));
    let folded = list.rfold(8918.0, Folder(MyFoldFn));
    assert_eq!(folded, 9001.0);
}

#[test]
fn fold_with_folder() {
    let list = Cons(1, Cons(false, Cons(42.0_f32, Nil)));
    let folded = list.fold(1.0, Folder(MyFoldFn));
    assert_eq!(folded, 42.0);
}

#[test]
fn fold_with_folder_by_reference() {
    let mut folder = MyFoldFn;
    let list = Cons(1, Cons(2, Nil));
    let folded = list.fold(0.5, Folder(&mut folder));
    assert_eq!(folded, 3.5);
}

struct Trace(Vec<i32>);

impl FoldFn<i32, i32> for Trace {
    fn fold(&mut self, acc: i32, item: i32) -> i32 {
        self.0.push(item);
        acc * 10 + item
    }
}

#[test]
fn folder_sees_items_front_to_back_and_back_to_front() {
    let list = Cons(1, Cons(2, Cons(3, Nil)));
    let mut left = Trace(Vec::new());
    assert_eq!(list.fold(0, Folder(&mut left)), 123);
    assert_eq!(left.0, vec![1, 2, 3]);
    let mut right = Trace(Vec::new());
    assert_eq!(list.rfold(0, Folder(&mut right)), 321);
    assert_eq!(right.0, vec![3, 2, 1]);
}

#[test]
fn pair_destructs_into_parts() {
    assert_eq!((1, "two").destruct(), (1, "two"));
}
