//! The adapters between the asynchronous storage traits and the asynchronous I/O traits. The
//! awaiting is done by the application layer; these adapters keep the position and the
//! capacity, and decide how each transfer or seek moves them.
use crate::adapters::storage::{seek_target, storage_seek_target, StorageIOError};
use crate::io::{ErrorKind, ErrorType};
use crate::io::SeekFrom;
use vstd::prelude::*;

verus! {

/// Adapter from the asynchronous storage traits: a storage read and written as a stream.
#[derive(Clone)]
pub struct FromEmbeddedStorage<T> {
    position: u32,
    inner: T,
}

impl<T> FromEmbeddedStorage<T> {
    /// The wrapped storage.
    pub closed spec fn spec_inner(&self) -> T {
        self.inner
    }

    /// The address at which the next transfer starts.
    pub closed spec fn spec_position(&self) -> u32 {
        self.position
    }

    /// Create a new adapter, positioned at the start of the storage.
    pub fn new(inner: T) -> (r: Self)
        ensures
            r.spec_inner() == inner,
            r.spec_position() == 0,
    {
        Self { position: 0, inner }
    }

    /// Consume the adapter, returning the inner object.
    pub fn into_inner(self) -> (r: T)
        ensures
            r == self.spec_inner(),
    {
        self.inner
    }

    /// Borrow the inner object.
    pub fn inner(&self) -> (r: &T)
        ensures
            *r == self.spec_inner(),
    {
        &self.inner
    }

    /// Mutably borrow the inner object.
    pub fn inner_mut(&mut self) -> (r: &mut T)
        ensures
            *r == old(self).spec_inner(),
            final(self).spec_inner() == *final(r),
            final(self).spec_position() == old(self).spec_position(),
    {
        &mut self.inner
    }

    /// The address at which the next transfer starts.
    pub fn position(&self) -> (r: u32)
        ensures
            r == self.spec_position(),
    {
        self.position
    }

    /// Move past a transfer of `len` bytes that succeeded (the position is a 32-bit address
    /// and wraps around).
    pub fn advance(&mut self, len: usize)
        ensures
            final(self).spec_inner() == old(self).spec_inner(),
            final(self).spec_position() == vstd::wrapping::u32_specs::wrapping_add(
                old(self).spec_position(),
                len as u32,
            ),
            old(self).spec_position() + len <= u32::MAX ==> final(self).spec_position()
                == old(self).spec_position() + len,
    {
        self.position = self.position.wrapping_add(len as u32);
    }

    /// Move to the target of `pos` in a storage of `capacity` bytes and report the new
    /// position; a target that is negative or beyond a 32-bit address is an invalid-input error
    /// and leaves the position as it was.
    pub fn seek_to(&mut self, pos: SeekFrom, capacity: usize) -> (r: Result<u64, StorageIOError>)
        ensures
            final(self).spec_inner() == old(self).spec_inner(),
            match storage_seek_target(capacity, old(self).spec_position(), pos) {
                Some(t) => final(self).spec_position() == t && r == Ok::<u64, StorageIOError>(t as u64),
                None => final(self).spec_position() == old(self).spec_position() && (r matches Err(e)
                    && e.spec_kind() == ErrorKind::InvalidInput),
            },
    {
        match seek_target(capacity, self.position, pos) {
            Some(t) => {
                self.position = t;
                Ok(t as u64)
            },
            None => Err(StorageIOError::new(ErrorKind::InvalidInput)),
        }
    }
}

impl<T> ErrorType for FromEmbeddedStorage<T> {
    type Error = StorageIOError;
}

/// Adapter to the asynchronous storage traits: a seekable stream used as a storage.
#[derive(Clone)]
pub struct ToEmbeddedStorage<T> {
    capacity: usize,
    inner: T,
}

impl<T> ToEmbeddedStorage<T> {
    /// The wrapped stream.
    pub closed spec fn spec_inner(&self) -> T {
        self.inner
    }

    /// The capacity that the adapter reports.
    pub closed spec fn spec_capacity(&self) -> usize {
        self.capacity
    }

    /// Create an adapter over a stream whose length, found by seeking to its end, is
    /// `capacity`.
    pub fn with_capacity(inner: T, capacity: usize) -> (r: Self)
        ensures
            r.spec_inner() == inner,
            r.spec_capacity() == capacity,
    {
        Self { capacity, inner }
    }

    /// Consume the adapter, returning the inner object.
    pub fn into_inner(self) -> (r: T)
        ensures
            r == self.spec_inner(),
    {
        self.inner
    }

    /// Borrow the inner object.
    pub fn inner(&self) -> (r: &T)
        ensures
            *r == self.spec_inner(),
    {
        &self.inner
    }

    /// Mutably borrow the inner object.
    pub fn inner_mut(&mut self) -> (r: &mut T)
        ensures
            *r == old(self).spec_inner(),
            final(self).spec_inner() == *final(r),
            final(self).spec_capacity() == old(self).spec_capacity(),
    {
        &mut self.inner
    }

    /// The capacity of the storage in bytes.
    pub fn capacity(&self) -> (r: usize)
        ensures
            r == self.spec_capacity(),
    {
        self.capacity
    }
}

} // verus!
