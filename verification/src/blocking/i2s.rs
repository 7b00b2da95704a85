//! Blocking I2S API.
use vstd::prelude::*;

verus! {

/// Blocking read.
pub trait Read<W> {
    /// Error type.
    type Error;

    /// Reads enough data from the bus to fill the left-channel and right-channel buffers.
    fn try_read<'w>(&mut self, left_words: &'w mut [W], right_words: &'w mut [W]) -> (r: Result<(), Self::Error>)
        ensures
            final(left_words)@.len() == old(left_words)@.len(),
            final(right_words)@.len() == old(right_words)@.len(),
    ;
}

/// Blocking write.
pub trait Write<W> {
    /// Error type.
    type Error;

    /// Sends the left-channel and right-channel data to the bus.
    fn try_write<'w>(&mut self, left_words: &'w [W], right_words: &'w [W]) -> Result<(), Self::Error>;
}

/// Blocking write (iterator version).
pub trait WriteIter<W> {
    /// Error type.
    type Error;

    /// Sends the left-channel and right-channel data to the bus.
    fn try_write<LW, RW>(&mut self, left_words: LW, right_words: RW) -> Result<(), Self::Error> where
        LW: IntoIterator<Item = W>,
        RW: IntoIterator<Item = W>,
    ;
}

} // verus!
