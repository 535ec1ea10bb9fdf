use persistent_list::List;
use std::collections::hash_map::DefaultHasher;
use std::hash::Hash;
use std::hash::Hasher;

#[test]
fn test_nil() {
    let nil = List::<i32>::nil();
    assert!(nil.is_empty());
    assert_eq!(nil.len(), 0);
    assert!(nil.head_opt().is_none());
    assert!(nil.tail_opt().is_none());
}

#[test]
#[should_panic]
fn test_nil_panic_head() {
    List::<i32>::nil().head();
}

#[test]
#[should_panic]
fn test_nil_panic_tail() {
    List::<i32>::nil().tail();
}

#[test]
fn test_cons() {
    let nil = List::nil();
    let a = List::cons(3, List::cons(2, List::cons(1, nil.clone())));
    let b = List::cons(4, a.clone());

    assert_eq!(a.len(), 3);
    assert_eq!(b.len(), 4);

    let list = b;
    assert_eq!(*list.head(), 4);
    let list = list.tail();
    assert_eq!(*list.head(), 3);
    let list = list.tail();
    assert_eq!(*list.head(), 2);
    let list = list.tail();
    assert_eq!(*list.head(), 1);
    let list = list.tail();
    assert!(list.is_empty());

    let list = List::cons(0, nil.clone());
    assert_eq!(*list.head_opt().unwrap(), 0);
    let list = list.tail_opt().unwrap();
    assert!(list.is_empty());
}

#[test]
fn test_opt_accessors_agree_with_strict() {
    let l = List::cons(7, List::cons(8, List::nil()));
    assert_eq!(l.head_opt(), Some(l.head()));
    assert_eq!(*l.head_opt().unwrap(), 7);
    let t1 = l.tail();
    let t2 = l.tail_opt().unwrap();
    assert_eq!(t1, t2);
    assert_eq!(*t1.head(), 8);
}

#[test]
fn test_cons_does_not_touch_tail() {
    let a = List::cons(1, List::nil());
    let b = List::cons(0, a.clone());
    assert_eq!(a.len(), 1);
    assert_eq!(*a.head(), 1);
    assert_eq!(b.tail(), a);
}

#[test]
fn test_from_vec_round_trip() {
    let l = List::from_vec(vec![3, 2, 1]);
    assert_eq!(l.len(), 3);
    let mut it = l.iter();
    assert_eq!(it.next(), Some(&3));
    assert_eq!(it.next(), Some(&2));
    assert_eq!(it.next(), Some(&1));
    assert_eq!(it.next(), None);
    assert_eq!(it.next(), None);
}

#[test]
fn test_from_vec_empty() {
    let l = List::<u8>::from_vec(Vec::new());
    assert!(l.is_empty());
    let mut it = l.iter();
    assert_eq!(it.next(), None);
}

#[test]
fn test_iter_restarts() {
    let l = List::cons(1, List::cons(2, List::nil()));
    let mut it1 = l.iter();
    assert_eq!(it1.next(), Some(&1));
    let mut it2 = l.iter();
    assert_eq!(it2.next(), Some(&1));
    assert_eq!(it1.next(), Some(&2));
    assert_eq!(it2.next(), Some(&2));
}

#[test]
fn test_render() {
    let l = List::from_vec(vec![
        String::from("3"),
        String::from("2"),
        String::from("1"),
    ]);
    assert_eq!(l.render(), "3 :: 2 :: 1 :: Nil");
    assert_eq!(List::<String>::nil().render(), "Nil");
    let one = List::cons(String::from("x"), List::nil());
    assert_eq!(one.render(), "x :: Nil");
}

#[test]
fn test_rev_involution() {
    let l = List::from_vec(vec![1, 2, 3]);
    let r = l.rev();
    let mut it = r.iter();
    assert_eq!(it.next(), Some(&3));
    assert_eq!(it.next(), Some(&2));
    assert_eq!(it.next(), Some(&1));
    assert_eq!(it.next(), None);
    assert_eq!(r.rev(), l);
    assert_eq!(List::<i32>::nil().rev(), List::nil());
}

#[test]
fn test_rev_of_strings() {
    let l = List::cons(String::from("a"), List::cons(String::from("b"), List::nil()));
    let r = l.rev();
    assert_eq!(r.render(), "b :: a :: Nil");
    assert_eq!(r.rev(), l);
}

#[test]
fn test_equality() {
    let a = List::cons(String::from("a"), List::nil());
    let b = List::cons(String::from("a"), List::nil());
    assert_eq!(a, b);
    assert_eq!(b, a);
    assert_eq!(a, a.clone());
    let c = List::cons(String::from("c"), List::nil());
    assert_ne!(a, c);
    let longer = List::cons(String::from("a"), a.clone());
    assert_ne!(a, longer);
    assert_ne!(List::<i32>::nil(), List::cons(1, List::nil()));
}

#[test]
fn test_ordering() {
    let a = List::cons(1, List::nil());
    let b = List::cons(2, List::nil());
    let c = List::cons(1, List::cons(2, List::nil()));
    assert!(a < b);
    assert!(a < c);
    assert!(List::nil() < c);
    assert!(a > List::nil());
    assert_eq!(a.cmp_with(&List::cons(1, List::nil())), std::cmp::Ordering::Equal);
    assert_eq!(a.cmp_with(&b), std::cmp::Ordering::Less);
    assert_eq!(b.cmp_with(&a), std::cmp::Ordering::Greater);
    assert_eq!(a.cmp_with(&c), std::cmp::Ordering::Less);
    assert_eq!(c.cmp_with(&a), std::cmp::Ordering::Greater);
    assert_eq!(a.partial_cmp(&b), Some(std::cmp::Ordering::Less));
}

#[test]
fn test_hash_of_equal_lists() {
    let a = List::cons(1u64, List::cons(2u64, List::nil()));
    let b = List::cons(1u64, List::cons(2u64, List::nil()));
    assert_eq!(a, b);
    let mut ha = DefaultHasher::new();
    a.hash(&mut ha);
    let mut hb = DefaultHasher::new();
    b.hash(&mut hb);
    assert_eq!(ha.finish(), hb.finish());
}

#[test]
fn test_clone_shares_contents() {
    let a = List::cons(5, List::cons(6, List::nil()));
    let b = a.clone();
    assert_eq!(a, b);
    assert_eq!(*b.head(), 5);
    drop(a);
    assert_eq!(*b.head(), 5);
    assert_eq!(*b.tail().head(), 6);
}

#[test]
fn test_shared_tail_outlives_owner() {
    let shared = List::cons(9, List::nil());
    let a = List::cons(1, shared.clone());
    let b = List::cons(2, shared.clone());
    drop(shared);
    assert_eq!(*a.tail().head(), 9);
    assert_eq!(*b.tail().head(), 9);
}

#[test]
fn test_default_is_nil() {
    let d = List::<i32>::default();
    assert!(d.is_empty());
    assert_eq!(d, List::nil());
}

#[test]
fn test_len_counts_by_traversal() {
    let mut l = List::nil();
    for i in 0..100 {
        l = List::cons(i, l);
    }
    assert_eq!(l.len(), 100);
}
