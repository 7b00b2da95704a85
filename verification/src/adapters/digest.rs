//! Adapters to/from `digest::Digest` traits, e.g. `sha2::Sha256`. Feeding a hasher goes
//! through `digest::Update`, whose implementations the application layer reaches.
use crate::io::{ErrorType, Write};
use core::convert::Infallible;
use vstd::prelude::*;

verus! {

/// Adapter from `digest::Digest` traits: every byte written is fed to the hasher.
#[derive(Clone)]
pub struct FromDigest<T> {
    inner: T,
}

impl<T> FromDigest<T> {
    /// The wrapped object.
    pub closed spec fn spec_inner(&self) -> T {
        self.inner
    }

    /// Create a new adapter.
    pub fn new(inner: T) -> (r: Self)
        ensures
            r.spec_inner() == inner,
    {
        Self { inner }
    }

    /// Consume the adapter, returning the inner object.
    pub fn into_inner(self) -> (r: T)
        ensures
            r == self.spec_inner(),
    {
        self.inner
    }

    /// Borrow the inner object.
    pub fn inner(&self) -> (r: &T)
        ensures
            *r == self.spec_inner(),
    {
        &self.inner
    }

    /// Mutably borrow the inner object.
    pub fn inner_mut(&mut self) -> (r: &mut T)
        ensures
            *r == old(self).spec_inner(),
            final(self).spec_inner() == *final(r),
    {
        &mut self.inner
    }
}

impl<T> ErrorType for FromDigest<T> {
    type Error = Infallible;
}

/// Adapter to `digest::Digest` traits: hashing data means writing it to the inner writer.
#[derive(Clone)]
pub struct ToDigest<T> {
    inner: T,
}

impl<T> ToDigest<T> {
    /// The wrapped object.
    pub closed spec fn spec_inner(&self) -> T {
        self.inner
    }

    /// Create a new adapter.
    pub fn new(inner: T) -> (r: Self)
        ensures
            r.spec_inner() == inner,
    {
        Self { inner }
    }

    /// Consume the adapter, returning the inner object.
    pub fn into_inner(self) -> (r: T)
        ensures
            r == self.spec_inner(),
    {
        self.inner
    }

    /// Borrow the inner object.
    pub fn inner(&self) -> (r: &T)
        ensures
            *r == self.spec_inner(),
    {
        &self.inner
    }

    /// Mutably borrow the inner object.
    pub fn inner_mut(&mut self) -> (r: &mut T)
        ensures
            *r == old(self).spec_inner(),
            final(self).spec_inner() == *final(r),
    {
        &mut self.inner
    }
}

impl<T: Write<Error = Infallible>> ToDigest<T> {
    /// Feed `data` to the inner writer in full, then flush it. The writer cannot fail, so
    /// there is nothing to report.
    ///
    /// For a writer that records what it is sent, the record grows by the bytes of `data`, from
    /// the first on. That it grows by all of them rests on the error type `Infallible` having no
    /// values, which the verifier does not see, so the contract states only that a prefix of
    /// `data` is recorded.
    pub fn update(&mut self, data: &[u8])
        ensures
            old(self).spec_inner().models_sink() ==> {
                let done = final(self).spec_inner().sink().len() - old(self).spec_inner().sink().len();
                &&& final(self).spec_inner().models_sink()
                &&& 0 <= done <= data@.len()
                &&& final(self).spec_inner().sink() == old(self).spec_inner().sink() + data@.take(done)
            },
    {
        let written = self.inner.write_all(data);
        proof {
            if written is Ok {
                assert(data@.take(data@.len() as int) =~= data@);
            }
        }
        let _ = self.inner.flush();
    }
}

} // verus!
