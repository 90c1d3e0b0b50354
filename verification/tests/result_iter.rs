use collect_failable::impls::result_iter::result_collection_outcome;
use collect_failable::{ItemIterator, IterState, ResultIter, SeqIter};

fn test_data() -> SeqIter<Result<i32, i32>> {
    SeqIter::new(vec![Ok(1), Err(3), Ok(3), Ok(4)])
}

#[test]
fn extract_err_zero_size_after_err() {
    let mut extractor = ResultIter::new(test_data());

    extractor.next(); // Ok(1)
    extractor.next(); // Err(3) - stops here
    extractor.next(); // Should return None

    assert_eq!(extractor.size_hint(), (0, Some(0)));
}

#[test]
fn extract_err_forward_hint() {
    let mut extractor = ResultIter::new(test_data());

    extractor.next(); // Ok(1)

    assert_eq!(extractor.size_hint(), (0, Some(3)));
}

#[test]
fn result_iter_yields_ok_values_until_first_err() {
    let mut extractor = ResultIter::new(test_data());

    assert_eq!(extractor.next(), Some(1));
    assert_eq!(extractor.next(), None);
    assert_eq!(extractor.next(), None);

    match extractor.take_inner() {
        IterState::Errored { error, remaining } => {
            assert_eq!(error, 3);
            assert_eq!(remaining.into_vec(), vec![Ok(3), Ok(4)]);
        }
        _ => panic!("the first error should be kept"),
    }
    assert_eq!(extractor.next(), None);
    assert_eq!(extractor.size_hint(), (0, Some(0)));
}

#[test]
fn result_iter_without_err_yields_everything() {
    let mut extractor = ResultIter::new(SeqIter::new(vec![Ok::<i32, i32>(5), Ok(6)]));

    assert_eq!(extractor.size_hint(), (0, Some(2)));
    assert_eq!(extractor.next(), Some(5));
    assert_eq!(extractor.next(), Some(6));
    assert_eq!(extractor.next(), None);
    assert!(matches!(extractor.take_inner(), IterState::Active(_)));
}

#[test]
fn iter_state_advance_steps() {
    let state: IterState<SeqIter<Result<i32, i32>>, i32> = IterState::Active(test_data());

    let (state, item) = state.advance();
    assert_eq!(item, Some(1));
    let (state, item) = state.advance();
    assert_eq!(item, None);
    assert!(matches!(state, IterState::Errored { error: 3, .. }));
    let (state, item) = state.advance();
    assert_eq!(item, None);
    assert!(matches!(state, IterState::Errored { .. }));

    let taken: IterState<SeqIter<Result<i32, i32>>, i32> = IterState::Taken;
    let (state, item) = taken.advance();
    assert_eq!(item, None);
    assert!(matches!(state, IterState::Taken));
}

#[test]
fn result_collection_outcome_follows_the_state() {
    let active: IterState<SeqIter<Result<i32, i32>>, i32> = IterState::Active(test_data());
    let r = result_collection_outcome(active, Ok::<Vec<i32>, ()>(vec![1]));
    assert_eq!(r.ok(), Some(Ok(vec![1])));

    let errored: IterState<SeqIter<Result<i32, i32>>, i32> =
        IterState::Errored { error: 3, remaining: SeqIter::new(vec![Ok(4)]) };
    let err = result_collection_outcome(errored, Ok::<Vec<i32>, ()>(vec![1])).unwrap_err();
    assert_eq!(err.error, 3);
    assert_eq!(err.result, Ok(vec![1]));
    assert_eq!(err.into_data().iter.into_vec(), vec![Ok(4)]);
}
