//! Analog-digital conversion traits.
use vstd::prelude::*;

verus! {

/// A marker trait to identify MCU pins that can be used as inputs to an ADC channel.
///
/// This marker trait denotes an object, i.e. a GPIO pin, that is ready for use as an input to
/// the ADC. As ADC channels can be supplied by multiple pins, this trait defines the
/// relationship between the physical interface and the ADC sampling buffer.
pub trait Channel<ADC> {
    /// Channel ID type: for example a `u8` for an ADC with eight channels, or a
    /// `(bank_id, channel_id)` tuple for an ADC with several banks.
    type ID;

    /// Get the specific ID that identifies this channel, for example `0_u8` for the first ADC
    /// channel, if `Self::ID` is `u8`.
    fn channel() -> Self::ID;
}

/// ADCs that sample on single channels per request, and do so at the time of the request.
pub trait OneShot<ADC, Word, Pin: Channel<ADC>> {
    /// Error type returned by ADC methods
    type Error;

    /// Request that the ADC begin a conversion on the specified pin.
    ///
    /// This method takes a `Pin` reference, as it is expected that the ADC will be able to
    /// sample whatever channel underlies the pin.
    fn read(&mut self, pin: &mut Pin) -> nb::Result<Word, Self::Error>;
}

} // verus!
