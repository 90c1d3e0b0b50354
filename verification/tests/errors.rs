use collect_failable::errors::capacity::{CapacityError, CapacityErrorKind};
use collect_failable::errors::capacity_error;
use collect_failable::errors::{
    CapacityMismatch, CollectError, CollectionCollision, CollectionError, Collision,
    ErrorItemProvider, ExceedsCapacity, ExtendError, ItemCollision, KeyCollision, MismatchKind,
    OneOf2, ResultCollectError, TupleCollectionError, TupleExtendError, UnzipError,
    ValueCollision,
};
use collect_failable::{EnsureEmpty, NotEmpty, PartialArray, SeqIter, SizeHint};

fn items(v: &[i32]) -> SeqIter<i32> {
    SeqIter::new(v.to_vec())
}

#[test]
fn collect_error_recovers_items_in_order() {
    let mut collected: PartialArray<i32, 2> = PartialArray::new();
    collected.try_push(1).unwrap();
    collected.try_push(2).unwrap();
    let err = CollectError::collect_overflow::<[i32; 2]>(items(&[4, 5]), collected, 3);
    assert_eq!(err.error.capacity, SizeHint::exact(2));
    assert_eq!(err.error.item(), Some(&3));
    assert_eq!(err.into_items(), vec![3, 1, 2, 4, 5]);
}

#[test]
fn collect_error_bounds_and_underflow() {
    let err: CollectError<SeqIter<i32>, Vec<i32>, CapacityError<i32>> =
        CollectError::bounds(items(&[1, 2, 3]), SizeHint::at_most(2));
    assert_eq!(err.error.kind, CapacityErrorKind::Bounds { hint: SizeHint::exact(3) });
    assert_eq!(err.into_items(), vec![1, 2, 3]);

    let err: CollectError<SeqIter<i32>, Vec<i32>, CapacityError<i32>> =
        CollectError::underflow(items(&[]), vec![1], SizeHint::exact(2));
    assert_eq!(err.error.kind, CapacityErrorKind::Underflow { count: 1 });
    assert_eq!(err.error.item(), None);

    let fits: Result<SeqIter<i32>, CollectError<SeqIter<i32>, Vec<i32>, CapacityError<i32>>> =
        CollectError::ensure_fits_in::<[i32; 2]>(items(&[1, 2]));
    assert!(fits.is_ok());
    let fits: Result<SeqIter<i32>, CollectError<SeqIter<i32>, Vec<i32>, CapacityError<i32>>> =
        CollectError::ensure_fits_in::<[i32; 2]>(items(&[1]));
    assert_eq!(fits.unwrap_err().error.capacity, SizeHint::exact(2));
}

#[test]
fn ensure_fits_in_array_holds_default_array() {
    let fits: Result<SeqIter<i32>, CollectError<SeqIter<i32>, [i32; 5], CapacityError<i32>>> =
        CollectError::ensure_fits_in::<[i32; 5]>(items(&[1, 2, 3, 4, 5]));
    assert_eq!(fits.unwrap().into_vec(), vec![1, 2, 3, 4, 5]);

    let fits: Result<SeqIter<i32>, CollectError<SeqIter<i32>, [i32; 5], CapacityError<i32>>> =
        CollectError::ensure_fits_in::<[i32; 5]>(items(&[1, 2, 3]));
    let data = fits.unwrap_err().into_data();
    assert_eq!(data.remain.into_vec(), vec![1, 2, 3]);
    assert_eq!(data.collected, [0, 0, 0, 0, 0]);
    assert_eq!(data.error.capacity, SizeHint::exact(5));
    assert_eq!(data.error.kind, CapacityErrorKind::Bounds { hint: SizeHint::exact(3) });
}

#[test]
fn collect_error_vec_items_keep_their_order() {
    let err = CollectError::new(items(&[7, 8]), vec![3, 1, 2], CapacityError::overflow(SizeHint::exact(3), 9));
    assert_eq!(err.into_items(), vec![9, 3, 1, 2, 7, 8]);
}

#[test]
fn capacity_error_checks_reported_bounds() {
    assert!(CapacityError::<i32>::ensure_fits(&items(&[1, 2]), SizeHint::at_most(2)).is_ok());
    let err = CapacityError::<i32>::ensure_fits(&items(&[1, 2, 3]), SizeHint::at_most(2)).unwrap_err();
    assert_eq!(err.kind, CapacityErrorKind::Bounds { hint: SizeHint::exact(3) });
    let err = CapacityError::<i32>::underflow_of::<[i32; 3]>(1);
    assert_eq!(err.capacity, SizeHint::exact(3));
    assert_eq!(err.kind, CapacityErrorKind::Underflow { count: 1 });
    let err = CapacityError::overflow(SizeHint::at_most(1), 9);
    assert_eq!(err.into_item(), Some(9));
    let err = CapacityError::<i32>::bounds(SizeHint::at_most(1), SizeHint::exact(2));
    assert_eq!(err.into_item(), None);
}

#[test]
fn extend_error_recovers_refused_item_then_rest() {
    let err = ExtendError::overflow(items(&[6, 7]), 5);
    assert_eq!(err.error.capacity, SizeHint::zero());
    assert_eq!(err.into_items(), vec![5, 6, 7]);

    let err: ExtendError<SeqIter<i32>, CapacityError<i32>> =
        ExtendError::bounds(items(&[1, 2]), SizeHint::at_most(1));
    assert_eq!(err.into_items(), vec![1, 2]);
}

#[test]
fn collection_error_variants() {
    let err: CollectionError<SeqIter<i32>, Vec<i32>, Collision<i32>> =
        CollectionError::collision(items(&[3]), vec![1], 2);
    assert_eq!(err.error.item, 2);
    assert_eq!(err.into_items(), vec![2, 1, 3]);

    let err: CollectionError<SeqIter<i32>, Vec<i32>, capacity_error::CapacityError<i32>> =
        CollectionError::overflow(items(&[]), vec![1, 2], 3, SizeHint::at_most(2));
    assert_eq!(err.into_items(), vec![3, 1, 2]);

    let err: CollectionError<SeqIter<i32>, Vec<i32>, capacity_error::CapacityError<i32>> =
        CollectionError::overflowed(items(&[4]), 3);
    assert!(err.collected.is_empty());
    assert_eq!(err.into_items(), vec![3, 4]);

    let err: CollectionError<SeqIter<i32>, Vec<i32>, capacity_error::CapacityError<i32>> =
        CollectionError::underflow(items(&[]), vec![1], SizeHint::exact(3));
    assert_eq!(err.error.kind, capacity_error::CapacityErrorKind::Underflow { count: 1 });
}

#[test]
fn collection_collision_counts_everything() {
    let err: CollectionCollision<SeqIter<i32>, Vec<i32>> =
        CollectionCollision::new(items(&[5, 6]), vec![1, 2], 1);
    assert_eq!(err.len(), 5);
    assert!(!err.is_empty());
    assert_eq!(err.into_items(), vec![1, 1, 2, 5, 6]);
    let err: CollectionCollision<SeqIter<i32>, Vec<i32>> =
        CollectionCollision::new(items(&[]), vec![], 4);
    assert_eq!(err.into_item(), 4);
}

#[test]
fn simple_errors_hold_their_values() {
    assert_eq!(KeyCollision::new(3).key, 3);
    assert_eq!(ValueCollision::new(4).value, 4);
    assert_eq!(ItemCollision::new(5).item, 5);
    assert_eq!(Collision::new(6).into_item(), Some(6));
    let e = ExceedsCapacity::new(2, 3);
    assert_eq!((e.capacity, e.required), (2, 3));
    let m = CapacityMismatch::underflow(SizeHint::exact(3), 1);
    assert_eq!(m.kind, MismatchKind::Underflow { count: 1 });
    assert_eq!(CapacityMismatch::overflow(SizeHint::at_most(1)).kind, MismatchKind::Overflow);
}

#[test]
fn one_of_two_errors() {
    let a: OneOf2<i32, &str> = OneOf2::A(1);
    assert!(a.is_a());
    assert!(!a.is_b());
    assert_eq!(a.try_unwrap_b(), Err(OneOf2::A(1)));
    let b: OneOf2<i32, &str> = OneOf2::B("b");
    assert_eq!(b.try_unwrap_b(), Ok("b"));
}

#[test]
fn tuple_collection_error_sides() {
    let err: TupleCollectionError<i32, i32, Vec<i32>, Vec<i32>> =
        TupleCollectionError::new_a(7, vec![1, 2]);
    assert!(err.is_a());
    let side = err.expect_a("first side failed");
    let data = side.into_data();
    assert_eq!((data.error, data.from), (7, vec![1, 2]));

    let err: TupleCollectionError<i32, i32, Vec<i32>, Vec<i32>> =
        TupleCollectionError::new_b(8, vec![3]);
    assert!(err.is_b());
    assert_eq!(err.expect_b("second side failed").into_error(), 8);
}

#[test]
fn data_carrying_errors() {
    let err = TupleExtendError::new(1, Some(2), items(&[3]));
    assert_eq!(err.pending, Some(2));
    let data = err.into_data();
    assert_eq!((data.error, data.remaining.into_vec()), (1, vec![3]));

    let err: ResultCollectError<&str, Vec<i32>, i32, SeqIter<i32>> =
        ResultCollectError::new("bad", Ok(vec![1]), items(&[9]));
    assert_eq!(err.error, "bad");
    let data = err.into_data();
    assert_eq!(data.result, Ok(vec![1]));
    assert_eq!(data.iter.into_vec(), vec![9]);

    let err = UnzipError::new(1, vec![2], vec![3], Some(4), items(&[5]));
    assert_eq!(err.error, 1);
    assert_eq!(err.pending, Some(4));
}

#[test]
fn ensure_empty_hands_back_first_item() {
    assert!(items(&[]).ensure_empty().is_ok());
    match items(&[1, 2]).ensure_empty() {
        Err(NotEmpty { iter, item }) => {
            assert_eq!(item, 1);
            assert_eq!(iter.into_vec(), vec![2]);
        }
        Ok(()) => panic!("iterator is not empty"),
    }
}
