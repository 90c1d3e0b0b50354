use std::collections::{BTreeSet, HashSet};

use collect_failable::{
    HashbrownSet, IntoItems, ItemCount, SeqIter, TryExtend, TryExtendOne, TryExtendSafe,
    TryFromIterator,
};
use indexmap::IndexSet;

fn values(v: &[u64]) -> SeqIter<u64> {
    SeqIter::new(v.to_vec())
}

#[test]
fn hash_set_collects_and_fails_on_repeat() {
    let set = HashSet::<u64>::try_from_iter(values(&[1, 2, 3])).unwrap();
    assert_eq!(set, HashSet::from([1, 2, 3]));

    let err = HashSet::<u64>::try_from_iter(values(&[1, 2, 1, 3])).unwrap_err();
    assert_eq!(err.error.item, 1);
    assert_eq!(err.collected, HashSet::from([1, 2]));
    let mut all = err.into_items();
    assert_eq!(all[0], 1);
    assert_eq!(all[3], 3);
    all.sort();
    assert_eq!(all, vec![1, 1, 2, 3]);
}

#[test]
fn hash_set_extend_guarantees() {
    let mut set = HashSet::from([1u64]);
    let err = set.try_extend_safe(values(&[2, 1])).unwrap_err();
    assert_eq!(set, HashSet::from([1]));
    assert_eq!(err.collected, HashSet::from([2]));

    let err = set.try_extend(values(&[2, 1, 5])).unwrap_err();
    assert_eq!(set, HashSet::from([1, 2]));
    assert_eq!(err.error.item, 1);
    assert_eq!(err.into_data().iterator.into_vec(), vec![5]);

    set.try_extend_one(9).unwrap();
    assert_eq!(set.try_extend_one(9).unwrap_err().item, 9);
}

#[test]
fn btree_set_collects_in_order() {
    let set = BTreeSet::<u64>::try_from_iter(values(&[3, 1, 2])).unwrap();
    assert_eq!(set.into_iter().collect::<Vec<_>>(), vec![1, 2, 3]);

    let err = BTreeSet::<u64>::try_from_iter(values(&[3, 1, 3])).unwrap_err();
    assert_eq!(err.into_items(), vec![3, 1, 3]);

    let mut set = BTreeSet::from([4u64]);
    set.try_extend_safe(values(&[5, 6])).unwrap();
    assert_eq!(set, BTreeSet::from([4, 5, 6]));
    let err = set.try_extend(values(&[7, 5])).unwrap_err();
    assert_eq!(err.error.item, 5);
    assert_eq!(set, BTreeSet::from([4, 5, 6, 7]));
    assert!(set.try_extend_one(4).is_err());
}

#[test]
fn index_set_collision_holds_collected_in_order() {
    let set = IndexSet::<u64>::try_from_iter(values(&[3, 1, 2])).ok().unwrap();
    assert_eq!(set.into_iter().collect::<Vec<_>>(), vec![3, 1, 2]);

    let err = IndexSet::<u64>::try_from_iter(values(&[3, 1, 3, 7])).unwrap_err();
    assert_eq!(err.item, 3);
    assert_eq!(err.len(), 4);
    assert!(!err.is_empty());
    assert_eq!(err.collected.iter().copied().collect::<Vec<_>>(), vec![3, 1]);
    assert_eq!(err.into_items(), vec![3, 3, 1, 7]);
}

#[test]
fn index_set_extend_guarantees() {
    let mut set = IndexSet::<u64>::new();
    set.insert(1);
    let err = set.try_extend(values(&[2, 1, 4])).unwrap_err();
    assert_eq!(err.item, 1);
    assert!(err.collected.is_empty());
    assert_eq!(set.iter().copied().collect::<Vec<_>>(), vec![1, 2]);

    let err = set.try_extend_safe(values(&[5, 6, 2])).unwrap_err();
    assert_eq!(err.item, 2);
    assert_eq!(err.collected.iter().copied().collect::<Vec<_>>(), vec![5, 6]);
    assert_eq!(set.iter().copied().collect::<Vec<_>>(), vec![1, 2]);

    assert!(set.try_extend_safe(values(&[5, 6])).is_ok());
    assert_eq!(set.iter().copied().collect::<Vec<_>>(), vec![1, 2, 5, 6]);
    assert_eq!(set.item_count(), 4);

    assert_eq!(set.try_extend_one(5).unwrap_err().item, 5);
    set.try_extend_one(0).unwrap();
    assert_eq!(set.into_items(), vec![1, 2, 5, 6, 0]);
}

#[test]
fn hashbrown_set_collects_and_extends() {
    let set = HashbrownSet::try_from_iter(values(&[1, 2, 3])).unwrap();
    assert!(set.contains(2));
    assert!(!set.contains(4));

    let err = HashbrownSet::try_from_iter(values(&[1, 2, 2])).unwrap_err();
    assert_eq!(err.error.item, 2);

    let mut set = HashbrownSet::new();
    set.try_extend(values(&[1, 2])).unwrap();
    assert!(set.try_extend_safe(values(&[3, 1])).is_err());
    assert!(!set.contains(3));
    set.try_extend_one(3).unwrap();
    let mut all = set.into_items();
    all.sort();
    assert_eq!(all, vec![1, 2, 3]);
}
