use collect_failable::errors::capacity::{CapacityErrorKind, FixedCap, RemainingCap};
use collect_failable::{
    ArrayVec, SeqIter, SizeHint, TryExtend, TryExtendOne, TryExtendSafe, TryFromIterator,
};

fn items(v: &[i32]) -> SeqIter<i32> {
    SeqIter::new(v.to_vec())
}

#[test]
fn array_vec_collects_up_to_capacity() {
    let array: ArrayVec<i32, 4> = ArrayVec::try_from_iter(items(&[1, 2, 3])).unwrap();
    assert_eq!(array.as_slice(), &[1, 2, 3]);
    assert_eq!(array.len(), 3);
    assert_eq!(array.capacity(), 4);
    assert_eq!(array.remaining_capacity(), 1);
}

#[test]
fn array_vec_collect_overflow_keeps_all_items() {
    let err = ArrayVec::<i32, 3>::try_from_iter(items(&[1, 2, 3, 4]).hide_size()).unwrap_err();
    assert_eq!(err.error.capacity, SizeHint::at_most(3));
    assert_eq!(err.error.kind, CapacityErrorKind::Overflow { overflow: 4 });
    assert_eq!(err.into_items(), vec![4, 1, 2, 3]);
}

#[test]
fn array_vec_collect_bounds_error() {
    let err = ArrayVec::<i32, 3>::try_from_iter(items(&[1, 2, 3, 4])).unwrap_err();
    assert_eq!(err.error.kind, CapacityErrorKind::Bounds { hint: SizeHint::exact(4) });
    assert_eq!(err.into_items(), vec![1, 2, 3, 4]);
}

#[test]
fn array_vec_try_extend_basic_guarantee() {
    let mut array: ArrayVec<i32, 4> = ArrayVec::try_from_iter(items(&[1, 2])).unwrap();
    array.try_extend(items(&[3])).unwrap();
    assert_eq!(&*array, &[1, 2, 3]);

    let err = array.try_extend(items(&[4, 5]).hide_size()).unwrap_err();
    assert_eq!(err.error.capacity, SizeHint::zero());
    assert_eq!(err.error.kind, CapacityErrorKind::Overflow { overflow: 5 });
    let mut all = array.into_vec();
    all.extend(err.into_items());
    assert_eq!(all, vec![1, 2, 3, 4, 5]);
}

#[test]
fn array_vec_try_extend_bounds_error_leaves_it_unchanged() {
    let mut array: ArrayVec<i32, 2> = ArrayVec::new();
    let err = array.try_extend(items(&[1, 2, 3])).unwrap_err();
    assert_eq!(err.error.capacity, SizeHint::at_most(2));
    assert!(array.is_empty());
}

#[test]
fn array_vec_try_extend_safe_strong_guarantee() {
    let mut array: ArrayVec<i32, 4> = ArrayVec::try_from_iter(items(&[1, 2])).unwrap();
    array.try_extend_safe(items(&[3])).unwrap();
    assert_eq!(array.as_slice(), &[1, 2, 3]);

    let err = array.try_extend_safe(items(&[4, 5]).hide_size()).unwrap_err();
    assert_eq!(array.as_slice(), &[1, 2, 3]);
    assert_eq!(err.error.capacity, SizeHint::at_most(1));
    assert_eq!(err.error.kind, CapacityErrorKind::Overflow { overflow: 5 });
    assert_eq!(err.collected.as_slice(), &[4]);
    assert_eq!(err.into_items(), vec![5, 4]);
}

#[test]
fn array_vec_try_extend_one_and_capacity() {
    let mut array: ArrayVec<i32, 1> = ArrayVec::new();
    assert_eq!(array.remaining_cap(), SizeHint::at_most(1));
    assert_eq!(ArrayVec::<i32, 1>::cap(), SizeHint::at_most(1));
    array.try_extend_one(1).unwrap();
    let err = array.try_extend_one(2).unwrap_err();
    assert_eq!(err.capacity, SizeHint::zero());
    assert_eq!(err.kind, CapacityErrorKind::Overflow { overflow: 2 });
    assert_eq!(array.try_push(3), Err(3));
}

#[test]
fn array_vec_extend_paths_agree() {
    let mut basic: ArrayVec<i32, 4> = ArrayVec::new();
    let mut safe: ArrayVec<i32, 4> = ArrayVec::new();
    assert!(basic.try_extend(items(&[1, 2, 3])).is_ok());
    assert!(safe.try_extend_safe(items(&[1, 2, 3])).is_ok());
    assert_eq!(basic.as_slice(), safe.as_slice());

    assert!(basic.try_extend(items(&[4, 5]).hide_size()).is_err());
    assert!(safe.try_extend_safe(items(&[4, 5]).hide_size()).is_err());
    assert_eq!(safe.as_slice(), &[1, 2, 3]);
    assert_eq!(basic.as_slice(), &[1, 2, 3, 4]);
}
