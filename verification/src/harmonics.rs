use vstd::prelude::*;
use crate::error::Error;

verus! {

/// Whether `n_min..=n_max` is an acceptable range of harmonic orders:
/// it starts at one or above and does not end before it starts.
pub open spec fn valid_limits(n_min: int, n_max: int) -> bool {
    1 <= n_min <= n_max
}

/// The lower limit that stands for `start`: the given one, or one where
/// none is given.
pub open spec fn start_or_default(start: Option<usize>) -> int {
    match start {
        Some(n) => n as int,
        None => 1,
    }
}

/// An inclusive range of harmonic orders, `n_min..=n_max`, with
/// `1 <= n_min <= n_max`.
#[derive(Clone, Copy, Debug, PartialEq, Eq, Structural)]
pub struct HarmonicRange {
    n_min: usize,
    n_max: usize,
}

impl HarmonicRange {
    /// The invariant of the type: the limits are acceptable.
    #[verifier::type_invariant]
    pub closed spec fn wf(&self) -> bool {
        valid_limits(self.n_min as int, self.n_max as int)
    }

    /// The lowest harmonic order of the range.
    pub closed spec fn first(&self) -> int {
        self.n_min as int
    }

    /// The highest harmonic order of the range.
    pub closed spec fn last(&self) -> int {
        self.n_max as int
    }

    /// How many harmonic orders the range holds.
    pub open spec fn count(&self) -> int {
        self.last() - self.first() + 1
    }

    /// Whether harmonic order `n` lies in the range.
    pub open spec fn has(&self, n: int) -> bool {
        self.first() <= n <= self.last()
    }

    /// The place of harmonic order `n` in a sequence that is aligned to
    /// the range: the lowest order stands at place zero.
    pub open spec fn place_of(&self, n: int) -> int {
        n - self.first()
    }

    /// The harmonic order that stands at place `k` of an aligned sequence.
    pub open spec fn order_at(&self, k: int) -> int {
        self.first() + k
    }

    /// A well-formed range starts at one or above, ends no earlier than it
    /// starts, and holds at least one order and no more than its last one.
    pub proof fn lemma_wf_bounds(&self)
        requires
            self.wf(),
        ensures
            1 <= self.first() <= self.last() <= usize::MAX,
            1 <= self.count() <= self.last(),
    {
    }

    /// Builds the range `n_min..=n_max`, or refuses limits that are not
    /// acceptable.
    pub fn new(n_min: usize, n_max: usize) -> (r: Result<HarmonicRange, Error>)
        ensures
            valid_limits(n_min as int, n_max as int) ==> r is Ok,
            !valid_limits(n_min as int, n_max as int) ==> r == Err::<HarmonicRange, Error>(
                Error::InvalidInput,
            ),
            r is Ok ==> r->Ok_0.wf() && r->Ok_0.first() == n_min && r->Ok_0.last() == n_max,
    {
        if n_min < 1 || n_min > n_max {
            Err(Error::InvalidInput)
        } else {
            Ok(HarmonicRange { n_min, n_max })
        }
    }

    /// Builds the range from an optional lower limit and an upper limit.
    /// Where no lower limit is given the range starts at one.
    pub fn from_limits(start: Option<usize>, n_max: usize) -> (r: Result<HarmonicRange, Error>)
        ensures
            valid_limits(start_or_default(start), n_max as int) ==> r is Ok,
            !valid_limits(start_or_default(start), n_max as int) ==> r == Err::<
                HarmonicRange,
                Error,
            >(Error::InvalidInput),
            r is Ok ==> r->Ok_0.wf() && r->Ok_0.first() == start_or_default(start)
                && r->Ok_0.last() == n_max,
    {
        let n_min: usize = match start {
            Some(n) => n,
            None => 1,
        };
        HarmonicRange::new(n_min, n_max)
    }

    /// The lowest harmonic order of the range.
    pub fn n_min(&self) -> (n: usize)
        ensures
            n == self.first(),
            self.wf(),
    {
        proof {
            use_type_invariant(self);
        }
        self.n_min
    }

    /// The highest harmonic order of the range.
    pub fn n_max(&self) -> (n: usize)
        ensures
            n == self.last(),
            self.wf(),
    {
        proof {
            use_type_invariant(self);
        }
        self.n_max
    }

    /// The number of harmonic orders in the range, which is the length of
    /// every sequence aligned to it.
    pub fn len(&self) -> (n: usize)
        ensures
            n == self.count(),
            n >= 1,
    {
        proof {
            use_type_invariant(self);
        }
        self.n_max - self.n_min + 1
    }

    /// Whether harmonic order `n` lies in the range.
    pub fn contains(&self, n: usize) -> (b: bool)
        ensures
            b == self.has(n as int),
    {
        self.n_min <= n && n <= self.n_max
    }

    /// The place of harmonic order `n` in a sequence aligned to the range,
    /// or nothing where the range does not hold `n`.
    pub fn position(&self, n: usize) -> (p: Option<usize>)
        ensures
            self.has(n as int) ==> p == Some((n - self.first()) as usize),
            !self.has(n as int) ==> p.is_none(),
            p.is_some() ==> 0 <= p.unwrap() < self.count() && p.unwrap() == self.place_of(
                n as int,
            ),
    {
        if self.n_min <= n && n <= self.n_max {
            Some(n - self.n_min)
        } else {
            None
        }
    }

    /// The harmonic order at place `k` of a sequence aligned to the range,
    /// or nothing where the sequence has no such place.
    pub fn harmonic_at(&self, k: usize) -> (n: Option<usize>)
        ensures
            0 <= k < self.count() ==> n == Some((self.first() + k) as usize),
            k >= self.count() ==> n.is_none(),
            n.is_some() ==> self.has(n.unwrap() as int) && n.unwrap() == self.order_at(k as int),
    {
        proof {
            use_type_invariant(self);
        }
        if k <= self.n_max - self.n_min {
            Some(self.n_min + k)
        } else {
            None
        }
    }
}

/// Place and order are inverse to each other: the order at the place of
/// `n` is `n`, and the place of an order of the range lies within the
/// aligned sequence.
pub proof fn lemma_order_at_place(r: HarmonicRange, n: int)
    requires
        r.wf(),
        r.has(n),
    ensures
        0 <= r.place_of(n) < r.count(),
        r.order_at(r.place_of(n)) == n,
{
}

/// The place of the order at place `k` is `k`, and that order lies in the
/// range.
pub proof fn lemma_place_of_order(r: HarmonicRange, k: int)
    requires
        r.wf(),
        0 <= k < r.count(),
    ensures
        r.has(r.order_at(k)),
        r.place_of(r.order_at(k)) == k,
{
}

} // verus!
