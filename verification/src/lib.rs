//! Fourier series coefficients of a closed piecewise-linear curve: the
//! integer-valued planning and validation around the numeric engine.

pub mod error;
pub mod harmonics;
pub mod samples;
pub mod result;
pub mod input;
