use vstd::prelude::*;

verus! {

/// The bounds `(lower, upper)` describe a non-empty range of lengths.
pub open spec fn valid_hint(h: (usize, Option<usize>)) -> bool {
    match h.1 {
        Some(u) => h.0 <= u,
        None => true,
    }
}

/// The length `n` lies inside the range described by `h`.
pub open spec fn hint_contains(h: (usize, Option<usize>), n: int) -> bool {
    &&& h.0 <= n
    &&& match h.1 {
        Some(u) => n <= u,
        None => true,
    }
}

/// Some length lies in both ranges, written out bound by bound.
pub open spec fn hints_overlap(a: (usize, Option<usize>), b: (usize, Option<usize>)) -> bool {
    match (a.1, b.1) {
        (Some(au), Some(bu)) => a.0 <= bu && b.0 <= au,
        (Some(au), None) => au >= b.0,
        (None, Some(bu)) => bu >= a.0,
        (None, None) => true,
    }
}

/// The error for bounds whose upper bound lies below the lower bound.
#[derive(Debug, Clone, Copy, PartialEq, Eq)]
pub struct InvalidSizeHint;

/// The range of lengths an iterator may still produce: at least `lower`, and at most `upper`
/// where an upper bound is known. The lower bound never exceeds the upper bound.
#[derive(Debug, Clone, Copy, PartialEq, Eq)]
pub struct SizeHint {
    lower: usize,
    upper: Option<usize>,
}

impl View for SizeHint {
    type V = (usize, Option<usize>);

    closed spec fn view(&self) -> (usize, Option<usize>) {
        (self.lower, self.upper)
    }
}

impl SizeHint {
    #[verifier::type_invariant]
    spec fn inv(self) -> bool {
        valid_hint((self.lower, self.upper))
    }

    /// The hint that conveys nothing: any length from zero upwards.
    pub fn universal() -> (r: Self)
        ensures
            r@ == (0usize, None::<usize>),
    {
        SizeHint { lower: 0, upper: None }
    }

    /// The hint of an iterator that yields nothing more.
    pub fn zero() -> (r: Self)
        ensures
            r@ == (0usize, Some(0usize)),
    {
        SizeHint { lower: 0, upper: Some(0) }
    }

    /// Creates a hint from `lower` and `upper`; the bounds must describe a non-empty range.
    pub fn new(lower: usize, upper: Option<usize>) -> (r: Self)
        requires
            valid_hint((lower, upper)),
        ensures
            r@ == (lower, upper),
    {
        SizeHint { lower, upper }
    }

    /// Creates a hint from `lower` and `upper`, failing when `upper` lies below `lower`.
    pub fn try_new(lower: usize, upper: Option<usize>) -> (r: Result<Self, InvalidSizeHint>)
        ensures
            match r {
                Ok(h) => valid_hint((lower, upper)) && h@ == (lower, upper),
                Err(_) => !valid_hint((lower, upper)),
            },
    {
        match upper {
            Some(u) => {
                if lower > u {
                    return Err(InvalidSizeHint);
                }
            },
            None => {},
        }
        Ok(SizeHint { lower, upper })
    }

    /// Creates the hint `lower..=upper`; `lower` must not exceed `upper`.
    pub fn bounded(lower: usize, upper: usize) -> (r: Self)
        requires
            lower <= upper,
        ensures
            r@ == (lower, Some(upper)),
    {
        SizeHint { lower, upper: Some(upper) }
    }

    /// Creates the hint `lower..=upper`, failing when `lower` exceeds `upper`.
    pub fn try_bounded(lower: usize, upper: usize) -> (r: Result<Self, InvalidSizeHint>)
        ensures
            match r {
                Ok(h) => lower <= upper && h@ == (lower, Some(upper)),
                Err(_) => lower > upper,
            },
    {
        if lower > upper {
            Err(InvalidSizeHint)
        } else {
            Ok(SizeHint { lower, upper: Some(upper) })
        }
    }

    /// Creates the hint `lower..`, with no upper bound.
    pub fn unbounded(lower: usize) -> (r: Self)
        ensures
            r@ == (lower, None::<usize>),
    {
        SizeHint { lower, upper: None }
    }

    /// Creates the hint of exactly `len` items.
    pub fn exact(len: usize) -> (r: Self)
        ensures
            r@ == (len, Some(len)),
    {
        SizeHint { lower: len, upper: Some(len) }
    }

    /// Creates the hint `0..=upper`.
    pub fn at_most(upper: usize) -> (r: Self)
        ensures
            r@ == (0usize, Some(upper)),
    {
        SizeHint { lower: 0, upper: Some(upper) }
    }

    /// Converts the standard `(lower, upper)` pair, failing when it describes an empty range.
    pub fn try_from_hint(hint: (usize, Option<usize>)) -> (r: Result<Self, InvalidSizeHint>)
        ensures
            match r {
                Ok(h) => valid_hint(hint) && h@ == hint,
                Err(_) => !valid_hint(hint),
            },
    {
        Self::try_new(hint.0, hint.1)
    }

    /// The standard `(lower, upper)` pair of this hint.
    pub fn as_hint(self) -> (r: (usize, Option<usize>))
        ensures
            r == self@,
            valid_hint(r),
    {
        proof {
            use_type_invariant(&self);
        }
        (self.lower, self.upper)
    }

    /// The inclusive lower bound.
    pub fn lower(self) -> (r: usize)
        ensures
            r == self@.0,
            valid_hint(self@),
    {
        proof {
            use_type_invariant(&self);
        }
        self.lower
    }

    /// The inclusive upper bound, if any.
    pub fn upper(self) -> (r: Option<usize>)
        ensures
            r == self@.1,
            valid_hint(self@),
    {
        proof {
            use_type_invariant(&self);
        }
        self.upper
    }

    /// Whether some length lies in both this range and `other`.
    pub fn overlaps(self, other: Self) -> (r: bool)
        ensures
            r == hints_overlap(self@, other@),
    {
        match (self.upper, other.upper) {
            (Some(au), Some(bu)) => self.lower <= bu && other.lower <= au,
            (Some(au), None) => au >= other.lower,
            (None, Some(bu)) => bu >= self.lower,
            (None, None) => true,
        }
    }

    /// Whether no length lies in both this range and `other`.
    pub fn disjoint(self, other: Self) -> (r: bool)
        ensures
            r == !hints_overlap(self@, other@),
    {
        !self.overlaps(other)
    }
}

/// Two hints with the same bounds are the same hint.
pub proof fn lemma_same_bounds_same_hint(a: SizeHint, b: SizeHint)
    requires
        a@ == b@,
    ensures
        a == b,
{
}

/// Two non-empty ranges overlap exactly when some length lies in both; overlapping is
/// symmetric, and a range always overlaps itself.
pub proof fn lemma_overlap_is_common_length(a: (usize, Option<usize>), b: (usize, Option<usize>))
    requires
        valid_hint(a),
        valid_hint(b),
    ensures
        hints_overlap(a, b) <==> exists|n: int| hint_contains(a, n) && hint_contains(b, n),
        hints_overlap(a, b) == hints_overlap(b, a),
        hints_overlap(a, a),
{
    if hints_overlap(a, b) {
        let n: int = if a.0 >= b.0 { a.0 as int } else { b.0 as int };
        assert(hint_contains(a, n) && hint_contains(b, n));
    }
}

} // verus!
