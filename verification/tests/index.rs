use hlist2::ops::{Dec, Here, Inc, There};
use std::cmp::Ordering;

#[test]
fn inc_wraps_in_there() {
    let zero = Here;
    let one: There<Here> = zero.inc();
    let two: There<There<Here>> = one.inc();
    assert_eq!(two, There::<There<Here>>::new());
}

#[test]
fn dec_unwraps_one_there() {
    let two: There<There<Here>> = There::new();
    let one: There<Here> = two.dec();
    let zero: Here = one.dec();
    assert_eq!(zero, Here);
}

#[test]
fn there_new_default_clone_copy() {
    let one: There<Here> = There::new();
    let other: There<Here> = Default::default();
    let copy = one;
    assert_eq!(one, other);
    assert_eq!(one.clone(), copy);
}

#[test]
fn add_is_peano_addition() {
    let zero = Here;
    let one: There<Here> = There::new();
    let two: There<There<Here>> = There::new();
    let sum: There<There<There<Here>>> = one + two;
    assert_eq!(sum, There::<There<There<Here>>>::new());
    let same: There<There<Here>> = zero + two;
    assert_eq!(same, two);
    let also: There<There<Here>> = two + zero;
    assert_eq!(also, two);
    let none: Here = zero + zero;
    assert_eq!(none, Here);
}

#[test]
fn sub_is_peano_subtraction() {
    let zero = Here;
    let one: There<Here> = There::new();
    let three: There<There<There<Here>>> = There::new();
    let two: There<There<Here>> = three - one;
    assert_eq!(two, There::<There<Here>>::new());
    let same: There<There<There<Here>>> = three - zero;
    assert_eq!(same, three);
    let none: Here = three - three;
    assert_eq!(none, Here);
    let nothing: Here = zero - zero;
    assert_eq!(nothing, Here);
}

#[test]
fn equality_follows_the_number() {
    let zero = Here;
    let one: There<Here> = There::new();
    let two: There<There<Here>> = There::new();
    assert!(zero == Here);
    assert!(one == There::<Here>::new());
    assert!(zero != one);
    assert!(one != zero);
    assert!(one != two);
    assert!(two != one);
    assert!(two == There::<There<Here>>::new());
}

#[test]
fn order_follows_the_number() {
    let zero = Here;
    let one: There<Here> = There::new();
    let two: There<There<Here>> = There::new();
    assert_eq!(zero.partial_cmp(&Here), Some(Ordering::Equal));
    assert_eq!(zero.partial_cmp(&one), Some(Ordering::Less));
    assert_eq!(one.partial_cmp(&zero), Some(Ordering::Greater));
    assert_eq!(one.partial_cmp(&two), Some(Ordering::Less));
    assert_eq!(two.partial_cmp(&one), Some(Ordering::Greater));
    assert_eq!(two.partial_cmp(&two), Some(Ordering::Equal));
    assert!(zero < two);
    assert!(two > one);
    assert!(one <= one);
}
