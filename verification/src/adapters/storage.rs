//! Adapters between the storage traits and the I/O traits: a storage read and written as a
//! stream, and a seekable stream used as a storage.
use crate::io::{Error, ErrorKind, ErrorType, Read, ReadExactError, Seek, SeekFrom, Write};
use crate::nor_flash::{NorFlashError, NorFlashErrorKind};
use crate::storage::{overwrite, ReadStorage, Storage};
use vstd::prelude::*;

verus! {

/// The I/O error kind that a NOR flash error kind is reported as: misaligned or out-of-bounds
/// arguments are invalid input, anything else is `Other`.
pub open spec fn io_kind_of_flash(kind: NorFlashErrorKind) -> ErrorKind {
    match kind {
        NorFlashErrorKind::NotAligned => ErrorKind::InvalidInput,
        NorFlashErrorKind::OutOfBounds => ErrorKind::InvalidInput,
        NorFlashErrorKind::Other => ErrorKind::Other,
    }
}

/// An error type that implements [`Error`] and that a storage's own error type should convert
/// into, for error compatibility with the I/O layer.
#[derive(Debug, Copy, Clone, PartialEq, Eq, Structural)]
pub struct StorageIOError {
    kind: ErrorKind,
}

impl StorageIOError {
    /// The kind of this error.
    pub closed spec fn spec_kind(&self) -> ErrorKind {
        self.kind
    }

    /// Create a new StorageIOError.
    pub fn new(kind: ErrorKind) -> (r: Self)
        ensures
            r.spec_kind() == kind,
    {
        Self { kind }
    }
}

impl Error for StorageIOError {
    open spec fn models_kind(&self) -> bool {
        true
    }

    open spec fn kind_of(&self) -> ErrorKind {
        self.spec_kind()
    }

    fn kind(&self) -> (k: ErrorKind)
        ensures
            k == self.spec_kind(),
    {
        self.kind
    }
}

impl<E: NorFlashError> From<E> for StorageIOError {
    /// Misaligned or out-of-bounds arguments are invalid input; anything else is `Other`.
    fn from(value: E) -> (r: Self)
        ensures
            value.models_kind() ==> r.spec_kind() == io_kind_of_flash(value.kind_of()),
    {
        match value.kind() {
            NorFlashErrorKind::NotAligned => Self::new(ErrorKind::InvalidInput),
            NorFlashErrorKind::OutOfBounds => Self::new(ErrorKind::InvalidInput),
            _ => Self::new(ErrorKind::Other),
        }
    }
}

impl<E: NorFlashError> vstd::std_specs::convert::FromSpecImpl<E> for StorageIOError {
    /// The kind of the result rests on the flash error's `kind`, which is described only for
    /// error types that model their kind: `from` states that itself.
    open spec fn obeys_from_spec() -> bool {
        false
    }

    open spec fn from_spec(v: E) -> Self {
        vstd::pervasive::arbitrary()
    }
}

/// Where a stream over a storage of `capacity` bytes, standing at `position`, lands when it
/// seeks to `pos`: the target counted from the start, the end or the current position, when it
/// is a valid 32-bit storage address; `None` when it is negative or beyond 32 bits.
pub open spec fn storage_seek_target(capacity: usize, position: u32, pos: SeekFrom) -> Option<u32> {
    let target: int = match pos {
        SeekFrom::Start(p) => p as int,
        SeekFrom::End(offset) => capacity + offset,
        SeekFrom::Current(offset) => position + offset,
    };
    if 0 <= target <= u32::MAX {
        Some(target as u32)
    } else {
        None
    }
}

/// Computes [`storage_seek_target`].
pub fn seek_target(capacity: usize, position: u32, pos: SeekFrom) -> (r: Option<u32>)
    ensures
        r == storage_seek_target(capacity, position, pos),
{
    let target: i128 = match pos {
        SeekFrom::Start(p) => p as i128,
        SeekFrom::End(offset) => capacity as i128 + offset as i128,
        SeekFrom::Current(offset) => position as i128 + offset as i128,
    };
    if 0 <= target && target <= u32::MAX as i128 {
        Some(target as u32)
    } else {
        None
    }
}

/// Adapter from the storage traits: a storage read and written as a stream, from a position
/// that moves past what each call transferred.
#[derive(Clone)]
pub struct FromEmbeddedStorage<T> {
    position: u32,
    inner: T,
}

impl<T> FromEmbeddedStorage<T> {
    /// The wrapped storage.
    pub closed spec fn spec_inner(&self) -> T {
        self.inner
    }

    /// The address at which the next transfer starts.
    pub closed spec fn spec_position(&self) -> u32 {
        self.position
    }

    /// Create a new adapter, positioned at the start of the storage.
    pub fn new(inner: T) -> (r: Self)
        ensures
            r.spec_inner() == inner,
            r.spec_position() == 0,
    {
        Self { position: 0, inner }
    }

    /// Consume the adapter, returning the inner object.
    pub fn into_inner(self) -> (r: T)
        ensures
            r == self.spec_inner(),
    {
        self.inner
    }

    /// Borrow the inner object.
    pub fn inner(&self) -> (r: &T)
        ensures
            *r == self.spec_inner(),
    {
        &self.inner
    }

    /// Mutably borrow the inner object.
    pub fn inner_mut(&mut self) -> (r: &mut T)
        ensures
            *r == old(self).spec_inner(),
            final(self).spec_inner() == *final(r),
            final(self).spec_position() == old(self).spec_position(),
    {
        &mut self.inner
    }
}

impl<T> ErrorType for FromEmbeddedStorage<T> {
    type Error = StorageIOError;

    /// The stream is not modeled: a read takes `buf.len()` bytes or fails.
    open spec fn models_stream(&self) -> bool {
        false
    }
}

impl<T: ReadStorage> Read for FromEmbeddedStorage<T> where T::Error: Into<StorageIOError> {
    /// Reads `buf.len()` bytes of the storage from the current position, all or nothing, and
    /// moves past them (the position is a 32-bit address and wraps around).
    fn read(&mut self, buf: &mut [u8]) -> (r: Result<usize, Self::Error>)
        ensures
            r matches Ok(n) ==> {
                &&& n == old(buf)@.len()
                &&& final(self).spec_position() == vstd::wrapping::u32_specs::wrapping_add(
                    old(self).spec_position(),
                    old(buf)@.len() as u32,
                )
                &&& old(self).spec_position() + n <= u32::MAX ==> final(self).spec_position()
                    == old(self).spec_position() + n
                &&& old(self).spec_inner().models_contents() ==> final(buf)@
                    == old(self).spec_inner().storage_contents().subrange(
                    old(self).spec_position() as int,
                    old(self).spec_position() + n,
                )
            },
            r is Err ==> final(self).spec_position() == old(self).spec_position(),
    {
        match self.inner.read(self.position, buf) {
            Ok(()) => {},
            Err(e) => return Err(e.into()),
        }
        self.position = self.position.wrapping_add(buf.len() as u32);
        Ok(buf.len())
    }
}

impl<T: Storage> Write for FromEmbeddedStorage<T> where T::Error: Into<StorageIOError> {
    /// Writes all of `buf` to the storage at the current position, and moves past it (the
    /// position is a 32-bit address and wraps around).
    fn write(&mut self, buf: &[u8]) -> (r: Result<usize, Self::Error>)
        ensures
            r matches Ok(n) ==> {
                &&& n == buf@.len()
                &&& final(self).spec_position() == vstd::wrapping::u32_specs::wrapping_add(
                    old(self).spec_position(),
                    buf@.len() as u32,
                )
                &&& old(self).spec_position() + n <= u32::MAX ==> final(self).spec_position()
                    == old(self).spec_position() + n
            },
            r is Err ==> final(self).spec_position() == old(self).spec_position(),
            final(self).spec_inner().models_contents() == old(self).spec_inner().models_contents(),
            old(self).spec_inner().models_contents() ==> final(self).spec_inner().storage_contents().len()
                == old(self).spec_inner().storage_contents().len(),
            old(self).spec_inner().models_contents() && old(self).spec_inner().models_writes() && r is Ok
                && old(self).spec_position() + buf@.len() <= old(self).spec_inner().storage_contents().len()
                ==> final(self).spec_inner().storage_contents() == overwrite(
                old(self).spec_inner().storage_contents(),
                old(self).spec_position() as int,
                buf@,
            ),
    {
        match self.inner.write(self.position, buf) {
            Ok(()) => {},
            Err(e) => return Err(e.into()),
        }
        self.position = self.position.wrapping_add(buf.len() as u32);
        Ok(buf.len())
    }

    fn flush(&mut self) -> (r: Result<(), Self::Error>)
        ensures
            r is Ok,
    {
        Ok(())
    }
}

impl<T: ReadStorage> Seek for FromEmbeddedStorage<T> where T::Error: Into<StorageIOError> {
    /// The position is the storage address; the end is the storage's capacity, when the storage
    /// models what it reports as its capacity.
    open spec fn models_seek(&self) -> bool {
        self.spec_inner().models_capacity()
    }

    open spec fn seek_position(&self) -> int {
        self.spec_position() as int
    }

    open spec fn seek_end(&self) -> int {
        self.spec_inner().capacity_of() as int
    }

    /// Every 32-bit address can be reached.
    open spec fn seek_limit(&self) -> int {
        u32::MAX as int
    }

    /// Moves to the target of `pos`, counted from the start, the end (the storage's capacity)
    /// or the current position; a target that is negative or beyond a 32-bit address is an
    /// invalid-input error and leaves the position as it was.
    fn seek(&mut self, pos: SeekFrom) -> (r: Result<u64, Self::Error>)
        ensures
            final(self).spec_inner() == old(self).spec_inner(),
            r matches Ok(t) ==> final(self).spec_position() == t,
            r matches Err(e) ==> final(self).spec_position() == old(self).spec_position()
                && e.spec_kind() == ErrorKind::InvalidInput,
            old(self).spec_inner().models_capacity() ==> match storage_seek_target(old(self).spec_inner().capacity_of(), old(self).spec_position(), pos) {
                Some(t) => final(self).spec_position() == t && r == Ok::<u64, StorageIOError>(t as u64),
                None => final(self).spec_position() == old(self).spec_position() && (r matches Err(e)
                    && e.spec_kind() == ErrorKind::InvalidInput),
            },
    {
        proof {
            assert((*old(self)).models_seek() == old(self).spec_inner().models_capacity());
            assert((*old(self)).seek_position() == old(self).spec_position());
            assert((*old(self)).seek_end() == old(self).spec_inner().capacity_of());
            assert((*old(self)).seek_limit() == u32::MAX);
            assert(!(*old(self)).models_seek_stream());
        }
        match seek_target(self.inner.capacity(), self.position, pos) {
            Some(t) => {
                self.position = t;
                Ok(t as u64)
            },
            None => Err(StorageIOError::new(ErrorKind::InvalidInput)),
        }
    }
}

/// Adapter to the storage traits: a seekable stream used as a storage, whose capacity is the
/// length the stream had when the adapter was made.
#[derive(Clone)]
pub struct ToEmbeddedStorage<T> {
    capacity: usize,
    inner: T,
}

impl<T: Seek> ToEmbeddedStorage<T> {
    /// Create a new adapter. Its capacity is found by seeking to the end of the stream; when
    /// that seek fails, its error is returned.
    pub fn new(inner: T) -> (r: Result<Self, T::Error>)
        ensures
            inner.models_seek() && 0 <= inner.seek_end() <= inner.seek_limit() ==> r is Ok,
            inner.models_seek() ==> (r matches Ok(s) ==> {
                &&& s.spec_capacity() == inner.seek_end() as usize
                &&& s.spec_inner().models_seek()
                &&& s.spec_inner().seek_end() == inner.seek_end()
                &&& s.spec_inner().seek_position() == inner.seek_end()
            }),
    {
        let mut inner = inner;
        match inner.seek(SeekFrom::End(0)) {
            Ok(len) => Ok(Self::with_capacity(inner, len as usize)),
            Err(e) => Err(e),
        }
    }
}

impl<T> ToEmbeddedStorage<T> {
    /// Create an adapter over a stream whose length, found by seeking to its end, is
    /// `capacity`.
    pub fn with_capacity(inner: T, capacity: usize) -> (r: Self)
        ensures
            r.spec_inner() == inner,
            r.spec_capacity() == capacity,
    {
        Self { capacity, inner }
    }

    /// The wrapped stream.
    pub closed spec fn spec_inner(&self) -> T {
        self.inner
    }

    /// The capacity that the adapter reports.
    pub closed spec fn spec_capacity(&self) -> usize {
        self.capacity
    }

    /// Consume the adapter, returning the inner object.
    pub fn into_inner(self) -> (r: T)
        ensures
            r == self.spec_inner(),
    {
        self.inner
    }

    /// Borrow the inner object.
    pub fn inner(&self) -> (r: &T)
        ensures
            *r == self.spec_inner(),
    {
        &self.inner
    }

    /// Mutably borrow the inner object.
    pub fn inner_mut(&mut self) -> (r: &mut T)
        ensures
            *r == old(self).spec_inner(),
            final(self).spec_inner() == *final(r),
            final(self).spec_capacity() == old(self).spec_capacity(),
    {
        &mut self.inner
    }
}

impl<T: Read + Seek> ReadStorage for ToEmbeddedStorage<T> {
    /// A failed seek or read of the stream, or its end coming before all the bytes were read.
    type Error = ReadExactError<T::Error>;

    /// The stream's bytes are not modeled here.
    open spec fn models_contents(&self) -> bool {
        false
    }

    closed spec fn storage_contents(&self) -> Seq<u8> {
        Seq::empty()
    }

    /// The capacity is the one found when the adapter was made.
    open spec fn models_capacity(&self) -> bool {
        true
    }

    open spec fn capacity_of(&self) -> usize {
        self.spec_capacity()
    }

    /// Seeks to `offset`, then reads until `bytes` is full. For a stream whose reads deliver its
    /// contents from the position on and that reaches every 32-bit position, a read that
    /// succeeds gives the contents at `offset`, and a read that runs past the end of the contents
    /// fails.
    fn read(&mut self, offset: u32, bytes: &mut [u8]) -> (r: Result<(), Self::Error>)
        ensures
            old(self).spec_inner().models_seek() && old(self).spec_inner().models_seek_stream()
                && old(self).spec_inner().seek_limit() >= u32::MAX && old(bytes)@.len() > 0 ==> {
                let contents = old(self).spec_inner().seek_contents();
                &&& r is Ok ==> offset + old(bytes)@.len() <= contents.len() && final(bytes)@
                    == contents.subrange(offset as int, offset + old(bytes)@.len())
                &&& offset + old(bytes)@.len() > contents.len() ==> r is Err
            },
    {
        match self.inner.seek(SeekFrom::Start(offset as u64)) {
            Ok(_) => {},
            Err(e) => return Err(ReadExactError::Other(e)),
        }
        self.inner.read_exact(bytes)
    }

    fn capacity(&self) -> (c: usize) {
        self.capacity
    }
}

impl<T: Read + Write + Seek> Storage for ToEmbeddedStorage<T> {
    /// Seeks to `offset`, then writes until all of `bytes` is written.
    fn write(&mut self, offset: u32, bytes: &[u8]) -> (r: Result<(), Self::Error>) {
        match self.inner.seek(SeekFrom::Start(offset as u64)) {
            Ok(_) => {},
            Err(e) => return Err(ReadExactError::Other(e)),
        }
        match self.inner.write_all(bytes) {
            Ok(()) => Ok(()),
            Err(e) => Err(ReadExactError::Other(e)),
        }
    }
}

} // verus!
