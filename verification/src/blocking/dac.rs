//! Blocking digital-analog conversion.
use vstd::prelude::*;

verus! {

/// A single-channel digital-analog converter.
pub trait DAC<WORD> {
    /// Error type returned by DAC methods.
    type Error;

    /// Output a new value on the converter.
    fn try_set_output(&mut self, value: WORD) -> Result<(), Self::Error>;
}

} // verus!
