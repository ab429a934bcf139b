use arena_city::{reduce_to, ArenaCity, Sanitize};
use std::cell::Cell;
use std::collections::{BTreeMap, BTreeSet, HashMap, HashSet, VecDeque};

#[derive(Debug, PartialEq)]
struct Kept(String);

impl Sanitize for Kept {
    fn sanitize(self) -> Option<Self> {
        Some(self)
    }
}

#[derive(Debug, PartialEq)]
struct Fragile(u32, bool);

impl Sanitize for Fragile {
    fn sanitize(self) -> Option<Self> {
        if self.1 {
            None
        } else {
            Some(self)
        }
    }
}

#[test]
fn released_value_is_reused_with_its_changes() {
    let city = ArenaCity::new();
    let mut foo = city.get_or_create(|| Kept(String::new()));
    foo.0.push_str("Foo");
    assert!(foo.release());
    let foo = city.get_or_create(|| unreachable!("the released value is reused"));
    assert_eq!(foo.0, "Foo");
}

#[test]
fn released_vec_comes_back_empty() {
    let city = ArenaCity::new();
    let mut foo = city.get_or_create(|| Vec::new());
    foo.push(10);
    assert!(foo.release());
    let foo = city.get_or_create(|| unreachable!("the released value is reused"));
    assert_eq!(foo.len(), 0);
}

#[test]
fn discarded_value_is_not_stored() {
    let city = ArenaCity::new();
    let bad = city.create(Fragile(1, true));
    assert!(!bad.release());
    let made = Cell::new(0u32);
    let next = city.get_or_create(|| {
        made.set(made.get() + 1);
        Fragile(2, false)
    });
    assert_eq!(made.get(), 1);
    assert_eq!(*next, Fragile(2, false));
}

#[test]
fn kept_value_of_a_discarding_type_is_stored() {
    let city = ArenaCity::new();
    assert!(city.create(Fragile(7, false)).release());
    let next = city.get_or_create(|| unreachable!("the released value is reused"));
    assert_eq!(*next, Fragile(7, false));
}

#[test]
fn values_come_back_last_in_first_out() {
    let city = ArenaCity::new();
    let a = city.get_or_create(|| Kept("A".to_string()));
    let b = city.get_or_create(|| Kept("B".to_string()));
    let c = city.get_or_create(|| Kept("C".to_string()));
    a.release();
    b.release();
    c.release();
    let first = city.get_or_create(|| unreachable!());
    let second = city.get_or_create(|| unreachable!());
    let third = city.get_or_create(|| unreachable!());
    assert_eq!(first.0, "C");
    assert_eq!(second.0, "B");
    assert_eq!(third.0, "A");
}

#[test]
fn reduce_to_keeps_the_first_values() {
    let city = ArenaCity::new();
    for i in 0..5u32 {
        assert!(city.create(Fragile(i, false)).release());
    }
    city.reduce_to(2);
    let x = city.get_or_create(|| unreachable!());
    let y = city.get_or_create(|| unreachable!());
    assert_eq!(*x, Fragile(1, false));
    assert_eq!(*y, Fragile(0, false));
    let made = Cell::new(false);
    let z = city.get_or_create(|| {
        made.set(true);
        Fragile(9, false)
    });
    assert!(made.get());
    assert_eq!(z.into_inner(), Fragile(9, false));
}

#[test]
fn reduce_to_mut_keeps_the_first_values() {
    let mut city = ArenaCity::with_capacity(8);
    for i in 0..5u32 {
        city.create(Fragile(i, false)).release();
    }
    city.reduce_to_mut(3);
    assert_eq!(*city.get_or_create(|| unreachable!()), Fragile(2, false));
    assert_eq!(*city.get_or_create(|| unreachable!()), Fragile(1, false));
    assert_eq!(*city.get_or_create(|| unreachable!()), Fragile(0, false));
    assert_eq!(*city.get_or_create(|| Fragile(8, false)), Fragile(8, false));
}

#[test]
fn reduce_to_larger_size_keeps_everything() {
    let city = ArenaCity::new();
    city.create(Fragile(1, false)).release();
    city.create(Fragile(2, false)).release();
    city.reduce_to(5);
    assert_eq!(*city.get_or_create(|| unreachable!()), Fragile(2, false));
    assert_eq!(*city.get_or_create(|| unreachable!()), Fragile(1, false));
}

#[test]
fn clear_empties_the_pool() {
    let city = ArenaCity::new();
    city.create(Fragile(1, false)).release();
    city.create(Fragile(2, false)).release();
    city.clear();
    assert_eq!(*city.get_or_create(|| Fragile(3, false)), Fragile(3, false));
}

#[test]
fn clear_mut_empties_the_pool() {
    let mut city = ArenaCity::new();
    city.create(Fragile(1, false)).release();
    city.clear_mut();
    assert_eq!(*city.get_or_create(|| Fragile(3, false)), Fragile(3, false));
}

#[test]
fn into_inner_does_not_return_the_value() {
    let city = ArenaCity::new();
    let mut v = city.get_or_create(|| vec![1u8]);
    v.push(2);
    assert_eq!(v.into_inner(), vec![1u8, 2]);
    let made = Cell::new(false);
    let w = city.get_or_create(|| {
        made.set(true);
        Vec::new()
    });
    assert!(made.get());
    assert!(w.is_empty());
}

#[test]
fn get_or_default_makes_a_default_value_when_empty() {
    let city: ArenaCity<String> = ArenaCity::default();
    let mut s = city.get_or_default();
    assert_eq!(s.get(), "");
    s.get_mut().push_str("abc");
    assert!(s.release());
    let again = city.get_or_default();
    assert_eq!(*again, "");
}

#[test]
fn reuse_or_create_prefers_the_reused_value() {
    let city = ArenaCity::new();
    let c = city.reuse_or_create(Some(Kept("old".to_string())), || unreachable!());
    assert_eq!(c.0, "old");
    let d = city.reuse_or_create(None, || Kept("new".to_string()));
    assert_eq!(d.0, "new");
}

#[test]
fn free_reduce_to_truncates_longer_vectors() {
    let mut v = vec![1, 2, 3, 4, 5];
    reduce_to(&mut v, 2);
    assert_eq!(v, vec![1, 2]);
    reduce_to(&mut v, 4);
    assert_eq!(v, vec![1, 2]);
    reduce_to(&mut v, 0);
    assert!(v.is_empty());
}

#[test]
fn string_is_cleared() {
    let s = String::from("hello").sanitize().unwrap();
    assert_eq!(s, "");
}

#[test]
fn collections_are_cleared() {
    let mut m = HashMap::new();
    m.insert(1, 2);
    assert!(m.sanitize().unwrap().is_empty());
    let mut h = HashSet::new();
    h.insert(1);
    assert!(h.sanitize().unwrap().is_empty());
    let mut b = BTreeMap::new();
    b.insert(1, 2);
    assert!(b.sanitize().unwrap().is_empty());
    let mut t = BTreeSet::new();
    t.insert(1);
    assert!(t.sanitize().unwrap().is_empty());
    let mut d = VecDeque::new();
    d.push_back(1);
    assert!(d.sanitize().unwrap().is_empty());
}

#[test]
fn option_follows_its_inner_rule() {
    assert_eq!(Some(vec![1]).sanitize(), Some(Some(Vec::new())));
    assert_eq!(None::<Vec<u8>>.sanitize(), Some(None));
    assert_eq!(Some(Fragile(1, true)).sanitize(), None);
}

#[test]
fn tuple_is_discarded_when_one_component_is() {
    assert_eq!((vec![1], String::from("x")).sanitize(), Some((Vec::new(), String::new())));
    assert_eq!((Fragile(1, false), Fragile(2, true)).sanitize(), None);
    assert_eq!((vec![1],).sanitize(), Some((Vec::new(),)));
    let six = (vec![1], vec![2], vec![3], vec![4], vec![5], Fragile(6, true));
    assert_eq!(six.sanitize(), None);
    let kept = (vec![1], vec![2], vec![3], vec![4], vec![5], Fragile(6, false));
    assert_eq!(
        kept.sanitize(),
        Some((Vec::new(), Vec::new(), Vec::new(), Vec::new(), Vec::new(), Fragile(6, false)))
    );
}
