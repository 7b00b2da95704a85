//! Blocking I2C API.
//!
//! Both 7-bit and 10-bit addresses are supported: the address mode is a type parameter of each
//! trait, 7-bit by default.
use vstd::prelude::*;

verus! {

/// Address mode (7-bit / 10-bit). Only the two modes below implement it.
pub trait AddressMode: crate::private::Sealed {}

/// 7-bit address mode type
pub type SevenBitAddress = u8;

/// 10-bit address mode type
pub type TenBitAddress = u16;

impl AddressMode for SevenBitAddress {}

impl AddressMode for TenBitAddress {}

/// Blocking read
pub trait Read<A: AddressMode = SevenBitAddress> {
    /// Error type
    type Error;

    /// Reads enough bytes from the slave with `address` to fill `buffer`.
    fn try_read(&mut self, address: A, buffer: &mut [u8]) -> (r: Result<(), Self::Error>)
        ensures
            final(buffer)@.len() == old(buffer)@.len(),
    ;
}

/// Blocking write
pub trait Write<A: AddressMode = SevenBitAddress> {
    /// Error type
    type Error;

    /// Writes bytes to the slave with address `address`.
    fn try_write(&mut self, address: A, bytes: &[u8]) -> Result<(), Self::Error>;
}

/// Blocking write (iterator version)
pub trait WriteIter<A: AddressMode = SevenBitAddress> {
    /// Error type
    type Error;

    /// Writes bytes to the slave with address `address`.
    fn try_write_iter<B>(&mut self, address: A, bytes: B) -> Result<(), Self::Error> where
        B: IntoIterator<Item = u8>,
    ;
}

/// Blocking write + read
pub trait WriteRead<A: AddressMode = SevenBitAddress> {
    /// Error type
    type Error;

    /// Writes bytes to the slave with address `address` and then reads enough bytes to fill
    /// `buffer` *in a single transaction*.
    fn try_write_read(&mut self, address: A, bytes: &[u8], buffer: &mut [u8]) -> (r: Result<(), Self::Error>)
        ensures
            final(buffer)@.len() == old(buffer)@.len(),
    ;
}

/// Blocking write (iterator version) + read
pub trait WriteIterRead<A: AddressMode = SevenBitAddress> {
    /// Error type
    type Error;

    /// Writes bytes to the slave with address `address` and then reads enough bytes to fill
    /// `buffer` *in a single transaction*.
    fn try_write_iter_read<B>(&mut self, address: A, bytes: B, buffer: &mut [u8]) -> (r: Result<(), Self::Error>) where
        B: IntoIterator<Item = u8>,
        ensures
            final(buffer)@.len() == old(buffer)@.len(),
    ;
}

} // verus!
