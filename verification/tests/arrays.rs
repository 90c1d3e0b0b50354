use collect_failable::errors::capacity::{CapacityErrorKind, FixedCap, RemainingCap};
use collect_failable::impls::arrays::try_from_iterator_erased;
use collect_failable::{
    ArrayIndex, InitGuard, ItemCountMismatch, ItemIterator, PartialArray, PostInc, SeqIter,
    SizeHint, SliceGuard, TryExtend, TryExtendSafe, TryFromIterator,
};

fn items(v: &[i32]) -> SeqIter<i32> {
    SeqIter::new(v.to_vec())
}

#[test]
fn array_from_exactly_n_items() {
    let array = <[i32; 3]>::try_from_iter(items(&[1, 2, 3])).unwrap();
    assert_eq!(array, [1, 2, 3]);
}

#[test]
fn array_too_few_items_is_underflow_with_all_items() {
    let err = <[i32; 3]>::try_from_iter(items(&[1, 2]).hide_size()).unwrap_err();
    assert_eq!(err.error.capacity, SizeHint::exact(3));
    assert_eq!(err.error.kind, CapacityErrorKind::Underflow { count: 2 });
    assert_eq!(err.into_items(), vec![1, 2]);
}

#[test]
fn array_too_many_items_is_overflow_with_all_items() {
    let err = <[i32; 3]>::try_from_iter(items(&[1, 2, 3, 4, 5]).hide_size()).unwrap_err();
    assert_eq!(err.error.capacity, SizeHint::exact(3));
    assert_eq!(err.error.kind, CapacityErrorKind::Overflow { overflow: 4 });
    assert_eq!(err.into_items(), vec![4, 1, 2, 3, 5]);
}

#[test]
fn array_hint_out_of_bounds_takes_nothing() {
    let err = <[i32; 2]>::try_from_iter(items(&[1, 2, 3])).unwrap_err();
    assert_eq!(err.error.kind, CapacityErrorKind::Bounds { hint: SizeHint::exact(3) });
    assert!(err.collected.is_empty());
    assert_eq!(err.into_items(), vec![1, 2, 3]);

    // a hidden size passes the bounds check and is caught item by item
    let err = <[i32; 2]>::try_from_iter(items(&[1, 2, 3]).hide_size()).unwrap_err();
    assert_eq!(err.error.kind, CapacityErrorKind::Overflow { overflow: 3 });
}

#[test]
fn array_capacity_traits() {
    assert_eq!(<[i32; 4]>::cap(), SizeHint::exact(4));
    assert_eq!([1, 2].remaining_cap(), SizeHint::zero());
    assert_eq!(Vec::<i32>::cap(), SizeHint::unbounded(0));
    assert_eq!(vec![1].remaining_cap(), SizeHint::unbounded(0));
}

#[test]
fn partial_array_push_and_convert() {
    let mut partial: PartialArray<i32, 2> = PartialArray::new();
    assert!(partial.is_empty());
    assert_eq!(partial.remaining_cap(), SizeHint::at_most(2));
    partial.try_push(7).unwrap();
    assert_eq!(partial.len(), 1);
    assert_eq!(partial.initialized(), &[7]);
    assert_eq!(&partial[..], &[7]);

    let err = partial.try_into_array().unwrap_err();
    assert_eq!(err.error.kind, CapacityErrorKind::Underflow { count: 1 });
    assert_eq!(err.error.capacity, SizeHint::exact(2));

    let mut partial = err.partial_array;
    partial.try_push(8).unwrap();
    assert_eq!(partial.try_push(9), Err(9));
    assert_eq!(partial.try_into_array().ok(), Some([7, 8]));
}

#[test]
fn partial_array_try_from_into_array() {
    let mut partial: PartialArray<i32, 2> = PartialArray::new();
    partial.try_push(1).unwrap();
    let err = <[i32; 2]>::try_from(partial).unwrap_err();
    assert_eq!(err.error.kind, CapacityErrorKind::Underflow { count: 1 });
    let mut partial = err.partial_array;
    partial.try_push(2).unwrap();
    assert_eq!(<[i32; 2]>::try_from(partial).ok(), Some([1, 2]));
}

#[test]
fn partial_array_drains_in_order() {
    let mut partial: PartialArray<i32, 3> = PartialArray::default();
    partial.try_push(1).unwrap();
    partial.try_push(2).unwrap();
    let mut drain = partial.into_iter();
    assert_eq!(drain.size_hint(), (2, Some(2)));
    assert_eq!(drain.next(), Some(1));
    assert_eq!(drain.size_hint(), (1, Some(1)));
    assert_eq!(drain.next(), Some(2));
    assert_eq!(drain.next(), None);
}

#[test]
fn array_index_counts_up_to_n() {
    let mut index: ArrayIndex<2> = ArrayIndex::new();
    assert_eq!(index.try_post_inc(), Some(0));
    assert_eq!(index.try_post_inc(), Some(1));
    assert_eq!(index.try_post_inc(), None);
    assert_eq!(index.get(), 2);
    assert_eq!(*index, 2);
    let fresh: ArrayIndex<5> = ArrayIndex::default();
    assert_eq!(fresh.get(), 0);
}

#[test]
fn post_inc_returns_previous_value() {
    let mut n: usize = 41;
    assert_eq!(n.post_inc(), 41);
    assert_eq!(n, 42);
}

#[test]
fn init_guard_requires_every_slot() {
    let mut guard: InitGuard<i32> = InitGuard::new(3);
    guard.try_extend(items(&[1, 2])).unwrap();
    let err = guard.try_disarm().unwrap_err();
    assert_eq!(err, ItemCountMismatch { expected: 3, actual: 2 });

    let mut guard: InitGuard<i32> = InitGuard::new(3);
    guard.try_extend(items(&[1, 2])).unwrap();
    guard.try_extend(items(&[3])).unwrap();
    assert_eq!(guard.try_disarm().unwrap(), vec![1, 2, 3]);
}

#[test]
fn init_guard_extension_past_the_end() {
    let mut guard: InitGuard<i32> = InitGuard::new(2);
    let err = guard.try_extend(items(&[1, 2, 3])).unwrap_err();
    assert_eq!(err, ItemCountMismatch { expected: 2, actual: 3 });
    assert_eq!(guard.try_disarm().unwrap(), vec![1, 2]);

    let mut guard: InitGuard<i32> = InitGuard::new(2);
    guard.try_extend_safe(items(&[1])).unwrap();
    let err = guard.try_extend_safe(items(&[2, 3])).unwrap_err();
    assert_eq!(err, ItemCountMismatch { expected: 2, actual: 3 });
    let err = guard.try_disarm().unwrap_err();
    assert_eq!(err, ItemCountMismatch { expected: 2, actual: 1 });
}

#[test]
fn slice_guard_disarm() {
    let mut guard: SliceGuard<i32> = SliceGuard::new(3);
    guard.extend(items(&[1, 2]));
    let (items_back, err) = guard.disarm().unwrap_err();
    assert_eq!(items_back, vec![1, 2]);
    assert_eq!(err.capacity, SizeHint::exact(3));
    assert_eq!(err.kind, CapacityErrorKind::Underflow { count: 2 });

    let mut guard: SliceGuard<i32> = SliceGuard::new(2);
    guard.extend(items(&[1, 2, 3]));
    assert_eq!(guard.disarm().unwrap(), vec![1, 2]);

    let mut guard: SliceGuard<i32> = SliceGuard::new(2);
    guard.extend(items(&[5]));
    assert_eq!(guard.drain(), vec![5]);
}

#[test]
fn erased_fill_counts_items() {
    let mut array = Vec::new();
    assert_eq!(try_from_iterator_erased(items(&[1, 2, 3]), &mut array, 3), Ok(()));
    assert_eq!(array, vec![1, 2, 3]);

    let mut array = Vec::new();
    assert_eq!(
        try_from_iterator_erased(items(&[1, 2]), &mut array, 3),
        Err(ItemCountMismatch { expected: 3, actual: 2 })
    );

    let mut array = Vec::new();
    assert_eq!(
        try_from_iterator_erased(items(&[1, 2, 3, 4]), &mut array, 3),
        Err(ItemCountMismatch { expected: 3, actual: 4 })
    );
    assert_eq!(array, vec![1, 2, 3]);
}
