use collect_failable::{InvalidSizeHint, SizeHint};

#[test]
fn size_hint_constructors() {
    assert_eq!(SizeHint::universal().as_hint(), (0, None));
    assert_eq!(SizeHint::zero().as_hint(), (0, Some(0)));
    assert_eq!(SizeHint::exact(3).as_hint(), (3, Some(3)));
    assert_eq!(SizeHint::at_most(4).as_hint(), (0, Some(4)));
    assert_eq!(SizeHint::unbounded(2).as_hint(), (2, None));
    assert_eq!(SizeHint::bounded(1, 5).as_hint(), (1, Some(5)));
    assert_eq!(SizeHint::new(1, None).lower(), 1);
    assert_eq!(SizeHint::new(1, Some(2)).upper(), Some(2));
}

#[test]
fn size_hint_rejects_invalid_bounds() {
    assert_eq!(SizeHint::try_new(5, Some(4)), Err(InvalidSizeHint));
    assert_eq!(SizeHint::try_bounded(5, 4), Err(InvalidSizeHint));
    assert_eq!(SizeHint::try_from_hint((3, Some(1))), Err(InvalidSizeHint));
    assert_eq!(SizeHint::try_from_hint((1, Some(3))), Ok(SizeHint::bounded(1, 3)));
    assert_eq!(SizeHint::try_new(2, None), Ok(SizeHint::unbounded(2)));
}

#[test]
fn size_hint_overlap_means_a_common_length() {
    assert!(SizeHint::bounded(1, 3).overlaps(SizeHint::bounded(3, 5)));
    assert!(SizeHint::bounded(3, 5).overlaps(SizeHint::bounded(1, 3)));
    assert!(SizeHint::bounded(1, 2).disjoint(SizeHint::bounded(3, 5)));
    assert!(SizeHint::unbounded(10).overlaps(SizeHint::at_most(10)));
    assert!(SizeHint::unbounded(11).disjoint(SizeHint::at_most(10)));
    assert!(SizeHint::universal().overlaps(SizeHint::zero()));
    assert!(SizeHint::exact(4).overlaps(SizeHint::exact(4)));
}
