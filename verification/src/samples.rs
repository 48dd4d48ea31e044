use vstd::prelude::*;
use crate::error::Error;

verus! {

/// The fewest samples that make a period, before it is closed.
pub const MIN_SAMPLES: usize = 1;

/// The exponent field of an IEEE 754 binary64 bit pattern, in place.
pub const EXPONENT_MASK: u64 = 0x7ff0_0000_0000_0000u64;

/// One period closed into a loop: the samples, followed by the first of
/// them once more.
pub open spec fn closed<T>(samples: Seq<T>) -> Seq<T>
    recommends
        samples.len() > 0,
{
    samples.push(samples[0])
}

/// Whether a binary64 bit pattern stands for a finite number: its
/// exponent field is not all ones (all ones mark the infinities and NaN).
pub open spec fn finite_bits(bits: u64) -> bool {
    bits & EXPONENT_MASK != EXPONENT_MASK
}

/// Whether every bit pattern of the sequence stands for a finite number.
pub open spec fn all_finite(bits: Seq<u64>) -> bool {
    forall|i: int| 0 <= i < bits.len() ==> finite_bits(#[trigger] bits[i])
}

/// Closes one period of samples into a loop by appending the first sample
/// after the last. A period without a sample is refused; a period of one
/// sample closes into two equal values, which bound one flat segment.
pub fn close_period<T: Copy>(samples: &Vec<T>) -> (r: Result<Vec<T>, Error>)
    ensures
        samples@.len() >= MIN_SAMPLES ==> r is Ok,
        samples@.len() < MIN_SAMPLES ==> r == Err::<Vec<T>, Error>(Error::InvalidInput),
        r is Ok ==> r->Ok_0@ == closed(samples@),
{
    let n: usize = samples.len();
    if n < MIN_SAMPLES {
        return Err(Error::InvalidInput);
    }
    let mut out: Vec<T> = Vec::new();
    let mut i: usize = 0;
    while i < n
        invariant
            n == samples@.len(),
            0 <= i <= n,
            out@ == samples@.subrange(0, i as int),
        decreases n - i,
    {
        out.push(samples[i]);
        proof {
            assert(out@ =~= samples@.subrange(0, i + 1));
        }
        i = i + 1;
    }
    out.push(samples[0]);
    proof {
        assert(samples@.subrange(0, n as int) =~= samples@);
    }
    Ok(out)
}

/// A closed period holds one value more than the period, so at least two,
/// and has as many segments as the period has samples.
pub proof fn lemma_closed_len<T>(samples: Seq<T>)
    requires
        samples.len() >= MIN_SAMPLES,
    ensures
        closed(samples).len() == samples.len() + 1,
        closed(samples).len() >= 2,
        closed(samples).len() - 1 == samples.len(),
        closed(samples).subrange(0, samples.len() as int) == samples,
        closed(samples)[samples.len() as int] == samples[0],
{
    assert(closed(samples).subrange(0, samples.len() as int) =~= samples);
}

/// The number of segments of a closed sample sequence of `closed_len`
/// values: one between each two neighbours. A sequence of fewer than two
/// values has no segment and is refused.
pub fn segment_count(closed_len: usize) -> (r: Result<usize, Error>)
    ensures
        closed_len >= 2 ==> r == Ok::<usize, Error>((closed_len - 1) as usize),
        closed_len < 2 ==> r == Err::<usize, Error>(Error::InvalidInput),
{
    if closed_len < 2 {
        Err(Error::InvalidInput)
    } else {
        Ok(closed_len - 1)
    }
}

/// Whether a binary64 bit pattern stands for a finite number.
pub fn is_finite_bits(bits: u64) -> (b: bool)
    ensures
        b == finite_bits(bits),
{
    bits & EXPONENT_MASK != EXPONENT_MASK
}

/// Checks that every value, given by its binary64 bit pattern, is finite.
pub fn check_finite(bits: &Vec<u64>) -> (r: Result<(), Error>)
    ensures
        all_finite(bits@) ==> r == Ok::<(), Error>(()),
        !all_finite(bits@) ==> r == Err::<(), Error>(Error::NonFiniteValue),
{
    let n: usize = bits.len();
    let mut i: usize = 0;
    while i < n
        invariant
            n == bits@.len(),
            0 <= i <= n,
            all_finite(bits@.subrange(0, i as int)),
        decreases n - i,
    {
        if !is_finite_bits(bits[i]) {
            return Err(Error::NonFiniteValue);
        }
        proof {
            let a = bits@.subrange(0, i as int);
            let b = bits@.subrange(0, i + 1);
            assert forall|k: int| 0 <= k < b.len() implies finite_bits(#[trigger] b[k]) by {
                if k < i {
                    assert(b[k] == a[k]);
                }
            }
        }
        i = i + 1;
    }
    proof {
        assert(bits@.subrange(0, n as int) =~= bits@);
    }
    Ok(())
}

} // verus!
