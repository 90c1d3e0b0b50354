use std::collections::{BTreeMap, HashMap};

use collect_failable::{
    HashbrownMap, IntoItems, SeqIter, TryExtend, TryExtendOne, TryExtendSafe, TryFromIterator,
};
use indexmap::IndexMap;

fn pairs(v: &[(u64, u64)]) -> SeqIter<(u64, u64)> {
    SeqIter::new(v.to_vec())
}

fn sorted(mut v: Vec<(u64, u64)>) -> Vec<(u64, u64)> {
    v.sort();
    v
}

#[test]
fn hash_map_collects_distinct_keys() {
    let map = HashMap::<u64, u64>::try_from_iter(pairs(&[(1, 2), (2, 3), (3, 4)])).unwrap();
    assert_eq!(map, HashMap::from([(1, 2), (2, 3), (3, 4)]));
}

#[test]
fn hash_map_collect_reports_first_repeated_key() {
    let err = HashMap::<u64, u64>::try_from_iter(pairs(&[(5, 1), (7, 2), (5, 3), (7, 4)])).unwrap_err();
    assert_eq!(err.key, 5);
}

#[test]
fn hash_map_try_extend_keeps_items_before_collision() {
    let mut map = HashMap::from([(1u64, 10u64)]);
    let err = map.try_extend(pairs(&[(2, 20), (1, 30), (3, 40)])).unwrap_err();
    assert_eq!(map, HashMap::from([(1, 10), (2, 20)]));
    assert_eq!(err.error.item, (1, 30));
    assert!(err.collected.is_empty());
    let data = err.into_data();
    assert_eq!(data.iterator.into_vec(), vec![(3, 40)]);
}

#[test]
fn hash_map_try_extend_safe_leaves_map_unchanged() {
    let mut map = HashMap::from([(1u64, 10u64)]);
    let err = map.try_extend_safe(pairs(&[(2, 20), (3, 30), (1, 30), (4, 40)])).unwrap_err();
    assert_eq!(map, HashMap::from([(1, 10)]));
    assert_eq!(err.error.item, (1, 30));
    assert_eq!(err.collected, HashMap::from([(2, 20), (3, 30)]));

    let all = err.into_items();
    assert_eq!(all[0], (1, 30));
    assert_eq!(sorted(all[1..3].to_vec()), vec![(2, 20), (3, 30)]);
    assert_eq!(all[3..].to_vec(), vec![(4, 40)]);
}

#[test]
fn hash_map_try_extend_safe_repeat_within_iterator() {
    let mut map: HashMap<u64, u64> = HashMap::new();
    let err = map.try_extend_safe(pairs(&[(2, 20), (2, 21)])).unwrap_err();
    assert!(map.is_empty());
    assert_eq!(err.error.item, (2, 21));
    assert_eq!(err.collected, HashMap::from([(2, 20)]));
}

#[test]
fn hash_map_extend_paths_agree_on_success() {
    let mut basic = HashMap::from([(1u64, 1u64)]);
    let mut safe = basic.clone();
    basic.try_extend(pairs(&[(2, 2), (3, 3)])).unwrap();
    safe.try_extend_safe(pairs(&[(2, 2), (3, 3)])).unwrap();
    assert_eq!(basic, safe);
    assert_eq!(basic, HashMap::from([(1, 1), (2, 2), (3, 3)]));
}

#[test]
fn hash_map_try_extend_one() {
    let mut map: HashMap<u64, u64> = HashMap::new();
    map.try_extend_one((1, 1)).unwrap();
    let err = map.try_extend_one((1, 2)).unwrap_err();
    assert_eq!(err.item, (1, 2));
    assert_eq!(map, HashMap::from([(1, 1)]));
}

#[test]
fn btree_map_collect_error_holds_everything() {
    let err = BTreeMap::<u64, u64>::try_from_iter(pairs(&[(1, 1), (2, 2), (1, 3), (4, 4)])).unwrap_err();
    assert_eq!(err.error.item, (1, 3));
    assert_eq!(err.collected, BTreeMap::from([(1, 1), (2, 2)]));
    assert_eq!(err.into_items(), vec![(1, 3), (1, 1), (2, 2), (4, 4)]);
}

#[test]
fn btree_map_collects_and_extends() {
    let mut map = BTreeMap::<u64, u64>::try_from_iter(pairs(&[(3, 1), (1, 2)])).unwrap();
    assert_eq!(map, BTreeMap::from([(1, 2), (3, 1)]));
    map.try_extend_safe(pairs(&[(2, 5)])).unwrap();
    assert_eq!(map, BTreeMap::from([(1, 2), (2, 5), (3, 1)]));
    let err = map.try_extend(pairs(&[(4, 4), (3, 9)])).unwrap_err();
    assert_eq!(err.error.item, (3, 9));
    assert_eq!(map, BTreeMap::from([(1, 2), (2, 5), (3, 1), (4, 4)]));
    let err = map.try_extend_one((2, 0)).unwrap_err();
    assert_eq!(err.item, (2, 0));
}

#[test]
fn index_map_keeps_insertion_order() {
    let map = IndexMap::<u64, u64>::try_from_iter(pairs(&[(3, 30), (1, 10), (2, 20)])).unwrap();
    assert_eq!(map.into_iter().collect::<Vec<_>>(), vec![(3, 30), (1, 10), (2, 20)]);
}

#[test]
fn index_map_collision_reports_key() {
    let err = IndexMap::<u64, u64>::try_from_iter(pairs(&[(3, 30), (3, 31)])).unwrap_err();
    assert_eq!(err.key, 3);

    let mut map = IndexMap::<u64, u64>::new();
    map.insert(1, 1);
    let err = map.try_extend(pairs(&[(2, 2), (1, 5)])).unwrap_err();
    assert_eq!(err.key, 1);
    assert_eq!(map.get(&2), Some(&2));
    assert_eq!(map.get(&1), Some(&1));

    let err = map.try_extend_safe(pairs(&[(7, 7), (2, 9)])).unwrap_err();
    assert_eq!(err.key, 2);
    assert_eq!(map.len(), 2);
    assert_eq!(map.get(&7), None);

    map.try_extend_safe(pairs(&[(7, 7), (8, 8)])).unwrap();
    assert_eq!(map.into_iter().collect::<Vec<_>>(), vec![(1, 1), (2, 2), (7, 7), (8, 8)]);
}

#[test]
fn hashbrown_map_collects_and_refuses_collisions() {
    let map = HashbrownMap::try_from_iter(pairs(&[(1, 2), (2, 3)])).unwrap();
    assert_eq!(map.len(), 2);
    assert_eq!(map.get(1), Some(2));
    assert_eq!(map.get(2), Some(3));
    assert_eq!(map.get(3), None);

    let err = HashbrownMap::try_from_iter(pairs(&[(1, 2), (2, 3), (1, 4), (9, 9)])).unwrap_err();
    assert_eq!(err.error.item, (1, 4));
    let all = err.into_items();
    assert_eq!(all[0], (1, 4));
    assert_eq!(sorted(all[1..3].to_vec()), vec![(1, 2), (2, 3)]);
    assert_eq!(all[3], (9, 9));
}

#[test]
fn hashbrown_map_extends() {
    let mut map = HashbrownMap::new();
    map.try_extend(pairs(&[(1, 1), (2, 2)])).unwrap();
    let err = map.try_extend_safe(pairs(&[(3, 3), (2, 5)])).unwrap_err();
    assert_eq!(err.error.item, (2, 5));
    assert_eq!(map.len(), 2);
    assert_eq!(map.get(3), None);
    let err = map.try_extend(pairs(&[(3, 3), (2, 5)])).unwrap_err();
    assert_eq!(err.error.item, (2, 5));
    assert_eq!(map.get(3), Some(3));
    map.try_extend_one((4, 4)).unwrap();
    assert_eq!(map.try_extend_one((4, 0)).unwrap_err().item, (4, 0));
    assert_eq!(sorted(map.into_items()), vec![(1, 1), (2, 2), (3, 3), (4, 4)]);
}

#[test]
fn collecting_matches_extending_an_empty_map() {
    let collected = BTreeMap::<u64, u64>::try_from_iter(pairs(&[(2, 1), (1, 2)])).unwrap();
    let mut extended = BTreeMap::new();
    extended.try_extend(pairs(&[(2, 1), (1, 2)])).unwrap();
    assert_eq!(collected, extended);

    assert!(BTreeMap::<u64, u64>::try_from_iter(pairs(&[(2, 1), (2, 2)])).is_err());
    let mut extended = BTreeMap::new();
    assert!(extended.try_extend(pairs(&[(2, 1), (2, 2)])).is_err());
}

#[test]
fn basic_extension_loses_no_item() {
    let mut map = BTreeMap::from([(9u64, 9u64)]);
    let err = map.try_extend(pairs(&[(1, 1), (2, 2), (9, 0), (3, 3)])).unwrap_err();
    let mut all: Vec<(u64, u64)> = map.into_iter().filter(|(k, _)| *k != 9).collect();
    all.extend(err.into_items());
    assert_eq!(sorted(all), vec![(1, 1), (2, 2), (3, 3), (9, 0)]);
}

#[test]
fn index_map_extension_appends_in_order() {
    let mut map = IndexMap::<u64, u64>::new();
    map.insert(5, 50);
    map.try_extend(pairs(&[(2, 20), (9, 90)])).unwrap();
    assert_eq!(map.iter().map(|(k, v)| (*k, *v)).collect::<Vec<_>>(), vec![(5, 50), (2, 20), (9, 90)]);
    map.try_extend_safe(pairs(&[(1, 10), (0, 0)])).unwrap();
    assert_eq!(
        map.into_iter().collect::<Vec<_>>(),
        vec![(5, 50), (2, 20), (9, 90), (1, 10), (0, 0)]
    );
}
