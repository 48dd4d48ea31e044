use vstd::prelude::*;

verus! {

/// Why a computation was refused before any coefficient was produced.
#[derive(Clone, Copy, Debug, PartialEq, Eq, Structural)]
pub enum Error {
    /// Fewer than two samples, or a harmonic range that starts below one
    /// or ends before it starts.
    InvalidInput,
    /// A sample or an intermediate value is NaN or infinite.
    NonFiniteValue,
}

} // verus!
