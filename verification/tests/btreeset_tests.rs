use mysten_infra::serde_lib::bcs_safe_btreeset::BcsSafeBTreeSet;
use std::collections::BTreeSet;

#[test]
fn smoke_test() {
    let mut s = BTreeSet::new();
    s.insert(10);
    s.insert(20);
    let mut s = BcsSafeBTreeSet::new_from_btreeset(s);
    assert_eq!(s.len(), 2);
    assert!(s.contains(&10));
    assert!(s.insert(30));
    assert_eq!(s.len(), 3);
    assert!(s.contains(&30));
    assert!(!s.insert(20));
    assert_eq!(s.len(), 3);
    assert!(!s.remove(&40));
    assert!(s.remove(&20));
    assert_eq!(s.len(), 2);
    assert!(!s.is_empty());
}

#[test]
fn iteration_is_ordered_and_round_trips() {
    let mut s: BcsSafeBTreeSet<u32> = BcsSafeBTreeSet::new();
    assert!(s.is_empty());
    assert!(s.insert(30));
    assert!(s.insert(10));
    assert!(s.insert(20));
    let items: Vec<u32> = s.iter().copied().collect();
    assert_eq!(items, vec![10, 20, 30]);
    let plain = s.clone().into_btreeset();
    assert_eq!(plain.into_iter().collect::<Vec<_>>(), vec![10, 20, 30]);
}

#[test]
fn clear_and_default() {
    let mut s: BcsSafeBTreeSet<i64> = BcsSafeBTreeSet::default();
    assert_eq!(s.len(), 0);
    s.insert(-1);
    s.insert(5);
    assert_eq!(s.len(), 2);
    s.clear();
    assert!(s.is_empty());
    assert!(!s.contains(&5));
}

#[test]
fn insert_then_remove_restores() {
    let mut s = BcsSafeBTreeSet::new_from_btreeset(BTreeSet::from([1u8, 2, 3]));
    assert!(s.insert(4));
    assert!(s.contains(&4));
    assert!(s.remove(&4));
    assert!(!s.contains(&4));
    assert_eq!(s.into_btreeset(), BTreeSet::from([1u8, 2, 3]));
}
