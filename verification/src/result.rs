use vstd::prelude::*;
use crate::harmonics::HarmonicRange;

verus! {

/// The coefficients of one computation: the mean term `a_0`, and the
/// cosine and sine coefficients `a_n` and `b_n`, both aligned to one
/// harmonic range. The lowest order of the range stands at place zero.
#[derive(Debug)]
pub struct ResultSet<T> {
    range: HarmonicRange,
    a_0: T,
    a_n: Vec<T>,
    b_n: Vec<T>,
}

impl<T> ResultSet<T> {
    /// The invariant of the type: both sequences have one value for each
    /// harmonic order of the range.
    #[verifier::type_invariant]
    pub closed spec fn wf(&self) -> bool {
        &&& self.range.wf()
        &&& self.a_n@.len() == self.range.count()
        &&& self.b_n@.len() == self.range.count()
    }

    /// The harmonic range that the coefficients are aligned to.
    pub closed spec fn harmonics(&self) -> HarmonicRange {
        self.range
    }

    /// The mean term.
    pub closed spec fn mean(&self) -> T {
        self.a_0
    }

    /// The cosine coefficients, in the order of the range.
    pub closed spec fn cosines(&self) -> Seq<T> {
        self.a_n@
    }

    /// The sine coefficients, in the order of the range.
    pub closed spec fn sines(&self) -> Seq<T> {
        self.b_n@
    }

    /// Both sequences of a well-formed result have exactly
    /// `last - first + 1` values, and the coefficient of each harmonic
    /// order `n` of the range stands at place `n - first`, which lies within
    /// them.
    pub proof fn lemma_aligned(&self, n: int)
        requires
            self.wf(),
            self.harmonics().has(n),
        ensures
            self.cosines().len() == self.harmonics().last() - self.harmonics().first() + 1,
            self.sines().len() == self.harmonics().last() - self.harmonics().first() + 1,
            self.harmonics().place_of(n) == n - self.harmonics().first(),
            0 <= self.harmonics().place_of(n) < self.cosines().len(),
            0 <= self.harmonics().place_of(n) < self.sines().len(),
    {
    }

    /// Puts the parts of a result together. Both sequences must have one
    /// value for each harmonic order of the range; otherwise there is no
    /// result.
    pub fn assemble(range: HarmonicRange, a_0: T, a_n: Vec<T>, b_n: Vec<T>) -> (r: Option<
        ResultSet<T>,
    >)
        ensures
            r.is_some() <==> a_n@.len() == range.count() && b_n@.len() == range.count(),
            r.is_some() ==> {
                &&& r.unwrap().wf()
                &&& r.unwrap().harmonics() == range
                &&& r.unwrap().mean() == a_0
                &&& r.unwrap().cosines() == a_n@
                &&& r.unwrap().sines() == b_n@
            },
    {
        let n: usize = range.len();
        if a_n.len() == n && b_n.len() == n {
            proof {
                use_type_invariant(&range);
            }
            Some(ResultSet { range, a_0, a_n, b_n })
        } else {
            None
        }
    }

    /// The harmonic range that the coefficients are aligned to.
    pub fn range(&self) -> (r: HarmonicRange)
        ensures
            r == self.harmonics(),
            r.wf(),
    {
        proof {
            use_type_invariant(self);
        }
        self.range
    }

    /// The number of harmonic orders, which is the length of both
    /// sequences.
    pub fn len(&self) -> (n: usize)
        ensures
            n == self.harmonics().count(),
            n == self.cosines().len(),
            n == self.sines().len(),
    {
        proof {
            use_type_invariant(self);
        }
        self.a_n.len()
    }

    /// The mean term.
    pub fn a_0(&self) -> (v: &T)
        ensures
            *v == self.mean(),
    {
        &self.a_0
    }

    /// The cosine coefficients, in the order of the range.
    pub fn a_n(&self) -> (v: &Vec<T>)
        ensures
            v@ == self.cosines(),
            v@.len() == self.harmonics().count(),
    {
        proof {
            use_type_invariant(self);
        }
        &self.a_n
    }

    /// The sine coefficients, in the order of the range.
    pub fn b_n(&self) -> (v: &Vec<T>)
        ensures
            v@ == self.sines(),
            v@.len() == self.harmonics().count(),
    {
        proof {
            use_type_invariant(self);
        }
        &self.b_n
    }

    /// The cosine coefficient of harmonic order `n`, or nothing where the
    /// range does not hold `n`.
    pub fn a(&self, n: usize) -> (v: Option<&T>)
        ensures
            v.is_some() <==> self.harmonics().has(n as int),
            v.is_some() ==> *v.unwrap() == self.cosines()[self.harmonics().place_of(n as int)],
    {
        proof {
            use_type_invariant(self);
        }
        match self.range.position(n) {
            Some(k) => Some(&self.a_n[k]),
            None => None,
        }
    }

    /// The sine coefficient of harmonic order `n`, or nothing where the
    /// range does not hold `n`.
    pub fn b(&self, n: usize) -> (v: Option<&T>)
        ensures
            v.is_some() <==> self.harmonics().has(n as int),
            v.is_some() ==> *v.unwrap() == self.sines()[self.harmonics().place_of(n as int)],
    {
        proof {
            use_type_invariant(self);
        }
        match self.range.position(n) {
            Some(k) => Some(&self.b_n[k]),
            None => None,
        }
    }
}

} // verus!
