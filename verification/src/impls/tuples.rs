//! Extending a pair of collections from an iterator of pairs.

use vstd::prelude::*;

use crate::errors::{OneOf2, TupleExtensionError};
use crate::impls::macros::extended_each;
use crate::iter::ItemIterator;
use crate::traits::{TryExtend, TryExtendOne};

verus! {

/// The first components of the pairs of `s`.
pub open spec fn firsts<X, Y>(s: Seq<(X, Y)>) -> Seq<X> {
    s.map_values(|p: (X, Y)| p.0)
}

/// The second components of the pairs of `s`.
pub open spec fn seconds<X, Y>(s: Seq<(X, Y)>) -> Seq<Y> {
    s.map_values(|p: (X, Y)| p.1)
}

/// Extending `pre` by the pairs of `s` stopped at pair `k`, as `e` reports: the pairs before it
/// were added to both collections, then the first collection refused the first item of pair
/// `k` (its second item is kept in the error), or the first collection took it and the second
/// refused the second item.
pub open spec fn pair_failed_at<A: TryExtendOne, B: TryExtendOne, I>(
    pre: (A, B),
    s: Seq<(A::Item, B::Item)>,
    k: int,
    post: (A, B),
    e: TupleExtensionError<A, B, I>,
) -> bool {
    match e@.side {
        OneOf2::A(side) => {
            &&& extended_each::<B>(pre.1, seconds(s).take(k), post.1)
            &&& side.unevaluated == Some(s[k].1)
            &&& exists|mid: A|
                extended_each::<A>(pre.0, firsts(s).take(k), mid) && #[trigger] A::extend_one_ensures(
                    mid,
                    s[k].0,
                    post.0,
                    Err(side.error),
                )
        },
        OneOf2::B(side) => {
            &&& extended_each::<A>(pre.0, firsts(s).take(k + 1), post.0)
            &&& side.unevaluated is None
            &&& exists|mid: B|
                extended_each::<B>(pre.1, seconds(s).take(k), mid) && #[trigger] B::extend_one_ensures(
                    mid,
                    s[k].1,
                    post.1,
                    Err(side.error),
                )
        },
    }
}

/// Extending `pre` by the pairs of `s` failed at some pair, as `e` reports, and `e` holds the
/// pairs after it.
pub open spec fn pair_extend_failed<
    A: TryExtendOne,
    B: TryExtendOne,
    I: ItemIterator<Item = (A::Item, B::Item)>,
>(
    pre: (A, B),
    s: Seq<(A::Item, B::Item)>,
    post: (A, B),
    e: TupleExtensionError<A, B, I>,
) -> bool {
    exists|k: int|
        #![trigger pair_failed_at::<A, B, I>(pre, s, k, post, e)]
        {
            &&& 0 <= k < s.len()
            &&& e@.remaining.remaining() == s.skip(k + 1)
            &&& pair_failed_at::<A, B, I>(pre, s, k, post, e)
        }
}

/// Extends a pair of collections with an iterator of pairs, adding the first item of each pair
/// to the first collection and the second to the second.
///
/// This gives a basic error guarantee only: when the second collection refuses an item, the
/// first already holds its partner.
impl<A: TryExtendOne, B: TryExtendOne, I: ItemIterator<Item = (A::Item, B::Item)>> TryExtend<
    I,
> for (A, B) {
    type Error = TupleExtensionError<A, B, I>;

    open spec fn extend_requires(pre: (A, B), iter: I) -> bool {
        true
    }

    open spec fn extend_ensures(
        pre: (A, B),
        iter: I,
        post: (A, B),
        r: Result<(), TupleExtensionError<A, B, I>>,
    ) -> bool {
        let s = iter.remaining();
        &&& r is Ok ==> extended_each::<A>(pre.0, firsts(s), post.0) && extended_each::<B>(
            pre.1,
            seconds(s),
            post.1,
        )
        &&& r matches Err(e) ==> pair_extend_failed::<A, B, I>(pre, s, post, e)
    }

    /// Adds the pairs one at a time, each item to its collection, stopping at the first item
    /// refused.
    #[verifier::loop_isolation(false)]
    fn try_extend(&mut self, iter: I) -> (r: Result<(), TupleExtensionError<A, B, I>>) {
        let ghost s = iter.remaining();
        let ghost pre = *self;
        let mut iter = iter;
        let ghost mut k: int = 0;
        proof {
            assert(firsts(s).take(0) =~= Seq::<A::Item>::empty());
            assert(seconds(s).take(0) =~= Seq::<B::Item>::empty());
        }
        loop
            invariant
                0 <= k <= s.len(),
                iter.remaining() == s.skip(k),
                extended_each::<A>(pre.0, firsts(s).take(k), self.0),
                extended_each::<B>(pre.1, seconds(s).take(k), self.1),
            decreases s.len() - k,
        {
            match iter.next() {
                None => {
                    proof {
                        assert(firsts(s).take(k) =~= firsts(s));
                        assert(seconds(s).take(k) =~= seconds(s));
                    }
                    return Ok(());
                },
                Some(pair) => {
                    let (a, b) = pair;
                    let ghost mid_a = self.0;
                    let ghost mid_b = self.1;
                    proof {
                        assert(pair == s[k]);
                        assert(iter.remaining() =~= s.skip(k + 1));
                        assert(k < s.len());
                        assert(firsts(s).take(k + 1).drop_last() =~= firsts(s).take(k));
                        assert(seconds(s).take(k + 1).drop_last() =~= seconds(s).take(k));
                        assert(firsts(s).take(k + 1).last() == a);
                        assert(seconds(s).take(k + 1).last() == b);
                    }
                    let res_a = self.0.try_extend_one(a);
                    match res_a {
                        Err(error) => {
                            let e = TupleExtensionError::new_a(error, Some(b), iter);
                            proof {
                                assert(A::extend_one_ensures(mid_a, s[k].0, self.0, Err(error)));
                                assert(e@.side matches OneOf2::A(side) && side.error == error);
                                assert(pair_failed_at::<A, B, I>(pre, s, k, *self, e));
                                assert(pair_extend_failed::<A, B, I>(pre, s, *self, e));
                            }
                            return Err(e);
                        },
                        Ok(()) => {
                            proof {
                                assert(res_a matches Ok(u) && u == ());
                                assert(A::extend_one_ensures(mid_a, s[k].0, self.0, Ok(())));
                            }
                        },
                    }
                    let res_b = self.1.try_extend_one(b);
                    match res_b {
                        Err(error) => {
                            let e = TupleExtensionError::new_b(error, None, iter);
                            proof {
                                assert(B::extend_one_ensures(mid_b, s[k].1, self.1, Err(error)));
                                assert(e@.side matches OneOf2::B(side) && side.error == error);
                                assert(pair_failed_at::<A, B, I>(pre, s, k, *self, e));
                                assert(pair_extend_failed::<A, B, I>(pre, s, *self, e));
                            }
                            return Err(e);
                        },
                        Ok(()) => {
                            proof {
                                assert(res_b matches Ok(u) && u == ());
                                assert(B::extend_one_ensures(mid_b, s[k].1, self.1, Ok(())));
                                k = k + 1;
                            }
                        },
                    }
                },
            }
        }
    }
}

} // verus!
