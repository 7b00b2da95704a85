//! Blocking random number generation.
use vstd::prelude::*;

verus! {

/// Blocking read of random bytes.
pub trait Read {
    /// Error type.
    type Error;

    /// Reads enough bytes from the hardware random number generator to fill `buffer`.
    fn try_read(&mut self, buffer: &mut [u8]) -> (r: Result<(), Self::Error>)
        ensures
            final(buffer)@.len() == old(buffer)@.len(),
    ;
}

} // verus!
