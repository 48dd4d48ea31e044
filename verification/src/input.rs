use vstd::prelude::*;
use crate::error::Error;
use crate::harmonics::{start_or_default, valid_limits, HarmonicRange};
use crate::samples::{all_finite, check_finite, MIN_SAMPLES};

verus! {

/// Whether the shape of the input is acceptable: a period of at least one
/// sample, and acceptable limits for the harmonic orders.
pub open spec fn valid_shape(sample_count: int, start: Option<usize>, n_max: int) -> bool {
    sample_count >= MIN_SAMPLES && valid_limits(start_or_default(start), n_max)
}

/// Checks the whole input before anything is computed. The samples of one
/// period are given by their binary64 bit patterns, the harmonic orders by
/// an optional lower limit and an upper limit.
///
/// An unacceptable shape is reported first; among inputs of acceptable
/// shape, a sample that is not finite is reported. Otherwise the harmonic
/// range is returned.
pub fn validate_input(sample_bits: &Vec<u64>, start: Option<usize>, n_max: usize) -> (r: Result<
    HarmonicRange,
    Error,
>)
    ensures
        !valid_shape(sample_bits@.len() as int, start, n_max as int) ==> r == Err::<
            HarmonicRange,
            Error,
        >(Error::InvalidInput),
        valid_shape(sample_bits@.len() as int, start, n_max as int) && !all_finite(sample_bits@)
            ==> r == Err::<HarmonicRange, Error>(Error::NonFiniteValue),
        valid_shape(sample_bits@.len() as int, start, n_max as int) && all_finite(sample_bits@)
            ==> r is Ok,
        r is Ok ==> r->Ok_0.wf() && r->Ok_0.first() == start_or_default(start) && r->Ok_0.last()
            == n_max,
{
    if sample_bits.len() < MIN_SAMPLES {
        return Err(Error::InvalidInput);
    }
    match HarmonicRange::from_limits(start, n_max) {
        Err(e) => Err(e),
        Ok(range) => match check_finite(sample_bits) {
            Err(e) => Err(e),
            Ok(()) => Ok(range),
        },
    }
}

} // verus!
