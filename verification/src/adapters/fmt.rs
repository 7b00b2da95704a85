//! Adapter to the `core::fmt::Write` trait.
use crate::io::{ErrorType, Write};
use vstd::prelude::*;
use vstd::string::StringSliceAdditionalSpecFns;

verus! {

/// Adapter to the `core::fmt::Write` trait.
#[derive(Clone, Default, PartialEq, Debug)]
pub struct ToFmt<T> {
    inner: T,
}

impl<T> ToFmt<T> {
    /// The wrapped object.
    pub closed spec fn spec_inner(&self) -> T {
        self.inner
    }

    /// Create a new adapter.
    pub fn new(inner: T) -> (r: Self)
        ensures
            r.spec_inner() == inner,
    {
        Self { inner }
    }

    /// Consume the adapter, returning the inner object.
    pub fn into_inner(self) -> (r: T)
        ensures
            r == self.spec_inner(),
    {
        self.inner
    }

    /// Borrow the inner object.
    pub fn inner(&self) -> (r: &T)
        ensures
            *r == self.spec_inner(),
    {
        &self.inner
    }

    /// Mutably borrow the inner object.
    pub fn inner_mut(&mut self) -> (r: &mut T)
        ensures
            *r == old(self).spec_inner(),
            final(self).spec_inner() == *final(r),
    {
        &mut self.inner
    }
}

impl<T: Write> core::fmt::Write for ToFmt<T> {
    /// Writes all the bytes of `s` to the inner writer; any error of the writer becomes
    /// `core::fmt::Error`.
    /// When the writer records what it is sent, success means that all the bytes of `s` were
    /// appended to it, and failure that only a part of them was.
    fn write_str(&mut self, s: &str) -> (r: core::fmt::Result)
        ensures
            old(self).spec_inner().models_sink() ==> final(self).spec_inner().models_sink() && match r {
                Ok(()) => final(self).spec_inner().sink() == old(self).spec_inner().sink() + s.spec_bytes(),
                Err(_) => {
                    let done = final(self).spec_inner().sink().len() - old(self).spec_inner().sink().len();
                    &&& 0 <= done < s.spec_bytes().len()
                    &&& final(self).spec_inner().sink() == old(self).spec_inner().sink() + s.spec_bytes().take(done)
                },
            },
    {
        match self.inner.write_all(s.as_bytes()) {
            Ok(()) => Ok(()),
            Err(_) => Err(core::fmt::Error),
        }
    }
}

} // verus!
