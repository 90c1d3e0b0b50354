use std::collections::{BTreeMap, HashSet};

use collect_failable::errors::OneOf2;
use collect_failable::{SeqIter, TryExtend};

#[test]
fn pair_of_collections_extends_both() {
    let pairs = SeqIter::new(vec![((1u64, 1u64), 2u64), ((3, 3), 4)]);
    let mut both: (BTreeMap<u64, u64>, HashSet<u64>) = (BTreeMap::new(), HashSet::new());
    assert!(both.try_extend(pairs).is_ok());
    assert_eq!(both.0, BTreeMap::from([(1, 1), (3, 3)]));
    assert_eq!(both.1, HashSet::from([2, 4]));
}

#[test]
fn pair_extension_first_side_fails() {
    let mut both: (BTreeMap<u64, u64>, HashSet<u64>) =
        (BTreeMap::from([(1, 1)]), HashSet::new());
    let pairs = SeqIter::new(vec![((5u64, 5u64), 6u64), ((1, 10), 7), ((8, 8), 9)]);
    let err = both.try_extend(pairs).unwrap_err();
    match &err.side {
        OneOf2::A(side) => {
            assert_eq!(side.error.item, (1, 10));
            assert_eq!(side.unevaluated, Some(7));
        }
        OneOf2::B(_) => panic!("the first collection should fail"),
    }
    assert_eq!(both.0[&1], 1);
    assert_eq!(both.0.len(), 2);
    assert_eq!(both.1, HashSet::from([6]));
    assert_eq!(err.into_data().remaining.into_vec(), vec![((8, 8), 9)]);
}

#[test]
fn pair_extension_second_side_fails_after_first_took_its_item() {
    let mut both: (BTreeMap<u64, u64>, HashSet<u64>) = (BTreeMap::new(), HashSet::from([6]));
    let pairs = SeqIter::new(vec![((1u64, 1u64), 6u64)]);
    let err = both.try_extend(pairs).unwrap_err();
    match &err.side {
        OneOf2::B(side) => {
            assert_eq!(side.error.item, 6);
            assert_eq!(side.unevaluated, None);
        }
        OneOf2::A(_) => panic!("the second collection should fail"),
    }
    assert_eq!(both.0, BTreeMap::from([(1, 1)]));
}
