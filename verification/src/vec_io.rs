//! A vector of bytes as a writer that never runs out of room.
use crate::io::{ErrorType, Write};
use vstd::prelude::*;

verus! {

impl ErrorType for Vec<u8> {
    type Error = core::convert::Infallible;

    /// A write appends to the vector.
    open spec fn models_sink(&self) -> bool {
        true
    }

    open spec fn sink(&self) -> Seq<u8> {
        self@
    }
}

impl Write for Vec<u8> {
    /// Appends all of `buf`.
    fn write(&mut self, buf: &[u8]) -> (r: Result<usize, Self::Error>)
        ensures
            r matches Ok(n) && n == buf@.len(),
            final(self)@ == old(self)@ + buf@,
    {
        self.extend_from_slice(buf);
        Ok(buf.len())
    }

    fn flush(&mut self) -> (r: Result<(), Self::Error>)
        ensures
            r is Ok,
            final(self)@ == old(self)@,
    {
        Ok(())
    }
}

} // verus!
