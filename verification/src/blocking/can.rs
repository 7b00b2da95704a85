//! Blocking CAN API.
use crate::can::Frame;
use vstd::prelude::*;

verus! {

/// A blocking CAN interface that is able to transmit and receive frames.
pub trait Can {
    /// Associated frame type.
    type Frame: Frame;

    /// Associated error type.
    type Error;

    /// Puts a frame in the transmit buffer. Blocks until space is available in
    /// the transmit buffer.
    fn try_transmit(&mut self, frame: &Self::Frame) -> Result<(), Self::Error>;

    /// Blocks until a frame was received or an error occurred.
    fn try_receive(&mut self) -> Result<Self::Frame, Self::Error>;
}

/// What a blocking transmission does after one non-blocking attempt: try the same frame again
/// while the transmit buffer is full, send the frame that was replaced in the buffer (a lower
/// priority one) when there is one, and stop when the buffer took the frame or an error came.
pub enum TransmitStep<F, E> {
    /// The transmit buffer is full: try the same frame again.
    Retry,
    /// The frame is queued, and it pushed this one out of the buffer: transmit it next.
    Resend(F),
    /// The frame is queued and nothing was pushed out.
    Done,
    /// The attempt failed with this error.
    Failed(E),
}

/// The step of a blocking transmission that follows the outcome of one non-blocking attempt.
pub fn transmit_step<F, E>(attempt: nb::Result<Option<F>, E>) -> (r: TransmitStep<F, E>)
    ensures
        attempt matches Err(nb::Error::WouldBlock) ==> r matches TransmitStep::Retry,
        attempt matches Err(nb::Error::Other(e)) ==> r == TransmitStep::<F, E>::Failed(e),
        attempt matches Ok(Some(f)) ==> r == TransmitStep::<F, E>::Resend(f),
        attempt matches Ok(None) ==> r matches TransmitStep::Done,
{
    match attempt {
        Err(nb::Error::WouldBlock) => TransmitStep::Retry,
        Err(nb::Error::Other(e)) => TransmitStep::Failed(e),
        Ok(Some(f)) => TransmitStep::Resend(f),
        Ok(None) => TransmitStep::Done,
    }
}

} // verus!
