//! Adapter from `futures::io` traits. The asynchronous reading, writing and seeking through the
//! inner object are done by the application layer; this module holds the adapter itself.
use vstd::prelude::*;

verus! {

/// Adapter from `futures::io` traits.
#[derive(Clone)]
pub struct FromFutures<T> {
    inner: T,
}

impl<T> FromFutures<T> {
    /// The wrapped object.
    pub closed spec fn spec_inner(&self) -> T {
        self.inner
    }

    /// Create a new adapter.
    pub fn new(inner: T) -> (r: Self)
        ensures
            r.spec_inner() == inner,
    {
        Self { inner }
    }

    /// Consume the adapter, returning the inner object.
    pub fn into_inner(self) -> (r: T)
        ensures
            r == self.spec_inner(),
    {
        self.inner
    }

    /// Borrow the inner object.
    pub fn inner(&self) -> (r: &T)
        ensures
            *r == self.spec_inner(),
    {
        &self.inner
    }

    /// Mutably borrow the inner object.
    pub fn inner_mut(&mut self) -> (r: &mut T)
        ensures
            *r == old(self).spec_inner(),
            final(self).spec_inner() == *final(r),
    {
        &mut self.inner
    }
}

} // verus!
