//! An iterator adaptor that yields the `Ok` values of an iterator of `Result`s and stops at the
//! first `Err`, keeping it with the rest of the iterator.

use vstd::prelude::*;

use crate::errors::ResultCollectError;
use crate::iter::ItemIterator;
use crate::size_hint::hint_contains;

verus! {

/// The `Ok` values at the front of `s`, up to its first `Err`.
pub open spec fn ok_prefix<T, E>(s: Seq<Result<T, E>>) -> Seq<T>
    decreases s.len(),
{
    if s.len() == 0 {
        Seq::empty()
    } else {
        match s[0] {
            Ok(v) => seq![v] + ok_prefix(s.drop_first()),
            Err(_) => Seq::empty(),
        }
    }
}

/// `next` and `item` result from advancing `state`: an active state yields its next `Ok` value
/// and stays active, stays active at the end, and records an `Err` with the rest of the
/// iterator; an errored or taken state stays as it is and yields nothing.
pub open spec fn advanced<T, E, I: ItemIterator<Item = Result<T, E>>>(
    state: IterState<I, E>,
    next: IterState<I, E>,
    item: Option<T>,
) -> bool {
    match state {
        IterState::Active(it) => {
            let s = it.remaining();
            if s.len() == 0 {
                &&& item is None
                &&& next matches IterState::Active(n) && n.remaining() == s && n.hint()
                    == it.hint_after_next()
            } else {
                match s[0] {
                    Ok(v) => {
                        &&& item == Some(v)
                        &&& next matches IterState::Active(n) && n.remaining() == s.drop_first()
                            && n.hint() == it.hint_after_next()
                    },
                    Err(e) => {
                        &&& item is None
                        &&& next matches IterState::Errored { error, remaining } && error == e
                            && remaining.remaining() == s.drop_first() && remaining.hint()
                            == it.hint_after_next()
                    },
                }
            }
        },
        _ => next == state && item is None,
    }
}

/// The state of a [`ResultIter`].
#[derive(Debug)]
pub enum IterState<I, E> {
    /// No `Err` has been met yet; the iterator is still being read.
    Active(I),
    /// The state was taken out with [`ResultIter::take_inner`].
    Taken,
    /// An `Err` was met; it is kept with the iterator after it.
    Errored {
        /// The first `Err` met.
        error: E,
        /// The iterator after that `Err`.
        remaining: I,
    },
}

impl<I, E> IterState<I, E> {
    /// Advances the iterator, returning the next `Ok` value if there is one, and the state that
    /// results: it stays active after an `Ok` value or at the end, and records the error and the
    /// rest of the iterator on an `Err`. An errored or taken state stays as it is.
    pub fn advance<T>(self) -> (r: (Self, Option<T>))
        where
            I: ItemIterator<Item = Result<T, E>>,
        ensures
            advanced::<T, E, I>(self, r.0, r.1),
    {
        match self {
            IterState::Active(iter) => {
                let ghost s = iter.remaining();
                let mut iter = iter;
                match iter.next() {
                    Some(Ok(v)) => (IterState::Active(iter), Some(v)),
                    Some(Err(e)) => (IterState::Errored { error: e, remaining: iter }, None),
                    None => {
                        proof {
                            assert(iter.remaining() =~= s);
                        }
                        (IterState::Active(iter), None)
                    },
                }
            },
            IterState::Taken => (IterState::Taken, None),
            IterState::Errored { error, remaining } => (
                IterState::Errored { error, remaining },
                None,
            ),
        }
    }
}

/// An iterator adaptor that yields the `Ok` values of an iterator of `Result`s, stopping at the
/// first `Err`, which it keeps with the rest of the iterator for later retrieval.
#[derive(Debug)]
pub struct ResultIter<I, E> {
    state: IterState<I, E>,
}

impl<I, E> View for ResultIter<I, E> {
    type V = IterState<I, E>;

    closed spec fn view(&self) -> IterState<I, E> {
        self.state
    }
}

impl<I, E> ResultIter<I, E> {
    /// Creates an adaptor over `iter`, active.
    pub fn new(iter: I) -> (r: Self)
        ensures
            r@ == IterState::<I, E>::Active(iter),
    {
        ResultIter { state: IterState::Active(iter) }
    }

    /// Takes the state out, leaving the adaptor in the taken state, which yields nothing.
    pub fn take_inner(&mut self) -> (r: IterState<I, E>)
        ensures
            r == old(self)@,
            final(self)@ == IterState::<I, E>::Taken,
    {
        let mut state = IterState::Taken;
        std::mem::swap(&mut state, &mut self.state);
        state
    }
}

/// Yields the `Ok` values up to the first `Err`. While active it reports no lower bound and the
/// inner iterator's upper bound; once an `Err` was met or the state taken, it reports zero.
impl<T, E, I: ItemIterator<Item = Result<T, E>>> ItemIterator for ResultIter<I, E> {
    type Item = T;

    open spec fn remaining(&self) -> Seq<T> {
        match self@ {
            IterState::Active(it) => ok_prefix(it.remaining()),
            _ => Seq::empty(),
        }
    }

    open spec fn hint(&self) -> (usize, Option<usize>) {
        match self@ {
            IterState::Active(it) => (0usize, it.hint().1),
            _ => (0usize, Some(0usize)),
        }
    }

    /// Zero once the next item is an `Err`; otherwise no lower bound and the upper bound the
    /// inner iterator will report after its step.
    open spec fn hint_after_next(&self) -> (usize, Option<usize>) {
        match self@ {
            IterState::Active(it) => {
                let s = it.remaining();
                if s.len() > 0 && s[0] is Err {
                    (0usize, Some(0usize))
                } else {
                    (0usize, it.hint_after_next().1)
                }
            },
            _ => (0usize, Some(0usize)),
        }
    }

    /// Advances the state as [`IterState::advance`] does.
    fn next(&mut self) -> (r: Option<T>)
        ensures
            advanced::<T, E, I>(old(self)@, final(self)@, r),
    {
        let state = self.take_inner();
        let (next, item) = state.advance();
        self.state = next;
        proof {
            if let IterState::Active(it) = old(self)@ {
                let s = it.remaining();
                if s.len() > 0 {
                    if let Ok(v) = s[0] {
                        assert((seq![v] + ok_prefix(s.drop_first())).drop_first() =~= ok_prefix(
                            s.drop_first(),
                        ));
                    }
                }
            }
        }
        item
    }

    fn size_hint(&self) -> (r: (usize, Option<usize>)) {
        proof {
            if let IterState::Active(it) = self@ {
                law_ok_prefix(it.remaining());
            }
        }
        match &self.state {
            IterState::Active(it) => (0, it.size_hint().1),
            _ => (0, Some(0)),
        }
    }
}

/// The bounds a [`ResultIter`] reports, before and after a step.
///
/// While active it reports no lower bound and exactly the inner iterator's upper bound (an
/// unknown upper bound stays unknown), and after a step that does not meet an `Err` it reports
/// the upper bound the inner iterator reports after its step; once stopped it reports exactly
/// zero and yields nothing. Whenever the inner iterator's bounds contain the number of items it
/// still holds, before or after its step, the adaptor's bounds contain the number of `Ok` values
/// it will still yield at that point.
pub proof fn law_result_iter_bounds<T, E, I: ItemIterator<Item = Result<T, E>>>(r: ResultIter<I, E>)
    ensures
        r@ matches IterState::Active(it) ==> r.hint() == (0usize, it.hint().1),
        r@ matches IterState::Active(it) ==> (it.remaining().len() == 0
            || it.remaining()[0] is Ok) ==> r.hint_after_next() == (0usize, it.hint_after_next().1),
        r@ matches IterState::Active(it) ==> (it.remaining().len() > 0
            && it.remaining()[0] is Err) ==> r.hint_after_next() == (0usize, Some(0usize)),
        !(r@ is Active) ==> r.hint() == (0usize, Some(0usize)) && r.hint_after_next() == (
            0usize,
            Some(0usize),
        ) && r.remaining().len() == 0,
        r@ matches IterState::Active(it) ==> hint_contains(it.hint(), it.remaining().len() as int)
            ==> hint_contains(r.hint(), r.remaining().len() as int),
        r@ matches IterState::Active(it) ==> hint_contains(
            it.hint_after_next(),
            if it.remaining().len() > 0 { it.remaining().len() - 1 } else { 0 },
        ) ==> hint_contains(
            r.hint_after_next(),
            if r.remaining().len() > 0 { r.remaining().len() - 1 } else { 0 },
        ),
{
    if let IterState::Active(it) = r@ {
        let s = it.remaining();
        law_ok_prefix(s);
        if s.len() > 0 {
            law_ok_prefix(s.drop_first());
        }
    }
}

/// The outcome of collecting the `Ok` values of an iterator of `Result`s, given the adaptor's
/// state once the collection is done and the collection's own outcome: when no `Err` stopped
/// the collection, that outcome; when one did, an error holding it, that outcome, and the rest
/// of the iterator. The state must not have been taken.
pub fn result_collection_outcome<C, CErr, I, E>(state: IterState<I, E>, result: Result<C, CErr>) -> (r:
    Result<Result<C, CErr>, ResultCollectError<E, C, CErr, I>>)
    requires
        !(state is Taken),
    ensures
        state is Active ==> r == Ok::<Result<C, CErr>, ResultCollectError<E, C, CErr, I>>(result),
        state matches IterState::Errored { error, remaining } ==> r matches Err(e) && e@.error
            == error && e@.result == result && e@.iter == remaining,
{
    match state {
        IterState::Active(_) => Ok(result),
        IterState::Errored { error, remaining } => Err(ResultCollectError::new(error, result, remaining)),
        IterState::Taken => vstd::pervasive::unreached(),
    }
}

/// The `Ok` values at the front of `s` are exactly the values of its first items, up to its
/// first `Err` or its end: each of them is `Ok`, and the item after them, if any, is an `Err`.
pub proof fn law_ok_prefix<T, E>(s: Seq<Result<T, E>>)
    ensures
        ok_prefix(s).len() <= s.len(),
        forall|i: int| 0 <= i < ok_prefix(s).len() ==> s[i] == Ok::<T, E>(#[trigger] ok_prefix(s)[i]),
        ok_prefix(s).len() < s.len() ==> s[ok_prefix(s).len() as int] is Err,
    decreases s.len(),
{
    if s.len() > 0 {
        let rest = s.drop_first();
        law_ok_prefix(rest);
        match s[0] {
            Ok(v) => {
                let p = ok_prefix(s);
                assert(p == seq![v] + ok_prefix(rest));
                assert forall|i: int| 0 <= i < p.len() implies s[i] == Ok::<T, E>(
                    #[trigger] p[i],
                ) by {
                    if i > 0 {
                        assert(p[i] == ok_prefix(rest)[i - 1]);
                        assert(s[i] == rest[i - 1]);
                    }
                }
                if p.len() < s.len() {
                    assert(s[p.len() as int] == rest[ok_prefix(rest).len() as int]);
                }
            },
            Err(_) => {},
        }
    }
}

} // verus!
