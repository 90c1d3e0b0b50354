use std::collections::HashMap;

use collect_failable::{FailableCollectExt, SeqIter};

#[test]
fn failable_collect_no_collision_matches_collect() {
    let collect = [(1u64, 2i32), (2, 3)].into_iter().collect::<HashMap<_, _>>();

    let try_collect = SeqIter::new(vec![(1u64, 2i32), (2, 3)]).try_collect_ext::<HashMap<_, _>>();

    assert!(try_collect.is_ok());
    assert_eq!(collect, try_collect.unwrap());
}

#[test]
fn failable_collect_collision_fails() {
    let try_collect = SeqIter::new(vec![(1u64, 2i32), (1, 3)]).try_collect_ext::<HashMap<_, _>>();

    assert!(try_collect.is_err());

    assert_eq!(try_collect.unwrap_err().key, 1);
}
