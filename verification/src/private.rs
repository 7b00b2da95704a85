//! Traits that only this crate can implement.
use vstd::prelude::*;

verus! {

/// Seals a public trait: only the types of this crate that implement it can implement the
/// sealed trait.
pub trait Sealed {}

impl Sealed for u8 {}

impl Sealed for u16 {}

impl<const N: usize> Sealed for [u8; N] {}

impl<'a> Sealed for &'a [u8] {}

impl<'a> Sealed for &'a mut [u8] {}

impl Sealed for Vec<u8> {}

impl<'a> Sealed for &'a mut Vec<u8> {}

impl Sealed for Box<[u8]> {}

} // verus!
