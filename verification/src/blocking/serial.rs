//! Blocking serial API.
use vstd::prelude::*;

verus! {

/// Write half of a serial interface (blocking variant).
pub trait Write<Word> {
    /// The type of error that can occur when writing.
    type Error;

    /// Writes a slice, blocking until everything has been written.
    ///
    /// An implementation can choose to buffer the write, returning `Ok(())` after the complete
    /// slice has been written to a buffer, but before all words have been sent via the serial
    /// interface. To make sure that everything has been sent, call [`Write::bflush`] after
    /// this function returns.
    fn bwrite_all(&mut self, buffer: &[Word]) -> Result<(), Self::Error>;

    /// Block until the serial interface has sent all buffered words.
    fn bflush(&mut self) -> Result<(), Self::Error>;
}

} // verus!
