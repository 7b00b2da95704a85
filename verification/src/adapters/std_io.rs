//! Adapters to/from `std::io` traits.
use crate::io::{seek_from_target, Error, ErrorKind, ErrorType, Read, ReadExactError, Seek, Write, WriteFmt, WriteFmtError};
use crate::std_io::{seek_from_std, std_error_kind, io_error_kind_of, io_error_of_kind, io_error_with_debug, to_std_error};
use vstd::prelude::*;

verus! {

/// Adapter from `std::io` traits. Reading, writing and seeking through the inner `std::io`
/// object are done by the application layer; this module holds the adapter itself.
#[derive(Clone)]
pub struct FromStd<T> {
    inner: T,
}

impl<T> FromStd<T> {
    /// The wrapped object.
    pub closed spec fn spec_inner(&self) -> T {
        self.inner
    }

    /// Create a new adapter.
    pub fn new(inner: T) -> (r: Self)
        ensures
            r.spec_inner() == inner,
    {
        Self { inner }
    }

    /// Consume the adapter, returning the inner object.
    pub fn into_inner(self) -> (r: T)
        ensures
            r == self.spec_inner(),
    {
        self.inner
    }

    /// Borrow the inner object.
    pub fn inner(&self) -> (r: &T)
        ensures
            *r == self.spec_inner(),
    {
        &self.inner
    }

    /// Mutably borrow the inner object.
    pub fn inner_mut(&mut self) -> (r: &mut T)
        ensures
            *r == old(self).spec_inner(),
            final(self).spec_inner() == *final(r),
    {
        &mut self.inner
    }
}

/// Adapter to `std::io` traits.
#[derive(Clone)]
pub struct ToStd<T> {
    inner: T,
}

impl<T> ToStd<T> {
    /// The wrapped object.
    pub closed spec fn spec_inner(&self) -> T {
        self.inner
    }

    /// Create a new adapter.
    pub fn new(inner: T) -> (r: Self)
        ensures
            r.spec_inner() == inner,
    {
        Self { inner }
    }

    /// Consume the adapter, returning the inner object.
    pub fn into_inner(self) -> (r: T)
        ensures
            r == self.spec_inner(),
    {
        self.inner
    }

    /// Borrow the inner object.
    pub fn inner(&self) -> (r: &T)
        ensures
            *r == self.spec_inner(),
    {
        &self.inner
    }

    /// Mutably borrow the inner object.
    pub fn inner_mut(&mut self) -> (r: &mut T)
        ensures
            *r == old(self).spec_inner(),
            final(self).spec_inner() == *final(r),
    {
        &mut self.inner
    }
}

impl<T: Read> std::io::Read for ToStd<T> {
    /// The count and the bytes are those of one read of the inner reader.
    fn read(&mut self, buf: &mut [u8]) -> (r: std::io::Result<usize>)
        ensures
            final(buf)@.len() == old(buf)@.len(),
            r matches Ok(n) ==> n <= old(buf)@.len(),
            old(self).spec_inner().models_stream() ==> final(self).spec_inner().models_stream() && match r {
                Ok(n) => {
                    let s = old(self).spec_inner().stream();
                    &&& n <= s.len()
                    &&& final(buf)@.take(n as int) == s.take(n as int)
                    &&& final(self).spec_inner().stream() == s.skip(n as int)
                    &&& n == 0 && old(buf)@.len() > 0 ==> s.len() == 0
                },
                Err(_) => final(self).spec_inner().stream() == old(self).spec_inner().stream(),
            },
            old(self).spec_inner().models_stream() && old(self).spec_inner().reads_fully() ==> (r matches Ok(n) && n == (
                if old(buf)@.len() < old(self).spec_inner().stream().len() {
                    old(buf)@.len() as usize
                } else {
                    old(self).spec_inner().stream().len() as usize
                })),
    {
        match self.inner.read(buf) {
            Ok(n) => Ok(n),
            Err(e) => Err(to_std_error(e)),
        }
    }

    /// A premature end of the inner stream becomes an `UnexpectedEof` error.
    fn read_exact(&mut self, buf: &mut [u8]) -> (r: std::io::Result<()>)
        ensures
            final(buf)@.len() == old(buf)@.len(),
            old(self).spec_inner().models_stream() ==> final(self).spec_inner().models_stream() && match r {
                Ok(()) => {
                    let s = old(self).spec_inner().stream();
                    &&& old(buf)@.len() <= s.len()
                    &&& final(buf)@ == s.take(old(buf)@.len() as int)
                    &&& final(self).spec_inner().stream() == s.skip(old(buf)@.len() as int)
                },
                Err(_) => true,
            },
    {
        match self.inner.read_exact(buf) {
            Ok(()) => Ok(()),
            Err(ReadExactError::UnexpectedEof) => Err(
                io_error_with_debug(
                    std::io::ErrorKind::UnexpectedEof,
                    &ReadExactError::<T::Error>::UnexpectedEof,
                ),
            ),
            Err(ReadExactError::Other(e)) => Err(to_std_error(e)),
        }
    }
}

impl<T: Write> std::io::Write for ToStd<T> {
    /// A writer that reports `WriteZero` has no room left: that is `Ok(0)` for `std::io`.
    fn write(&mut self, buf: &[u8]) -> (r: std::io::Result<usize>)
        ensures
            r matches Ok(n) ==> n <= buf@.len(),
            old(self).spec_inner().models_sink() ==> final(self).spec_inner().models_sink() && match r {
                Ok(n) => final(self).spec_inner().sink() == old(self).spec_inner().sink() + buf@.take(n as int),
                Err(_) => final(self).spec_inner().sink() == old(self).spec_inner().sink(),
            },
    {
        match self.inner.write(buf) {
            Ok(n) => Ok(n),
            Err(e) => {
                let kind = e.kind();
                std_write_error(e, kind)
            },
        }
    }

    fn write_all(&mut self, buf: &[u8]) -> (r: std::io::Result<()>)
        ensures
            old(self).spec_inner().models_sink() && r is Ok ==> final(self).spec_inner().models_sink()
                && final(self).spec_inner().sink() == old(self).spec_inner().sink() + buf@,
    {
        match self.inner.write_all(buf) {
            Ok(()) => Ok(()),
            Err(e) => Err(to_std_error(e)),
        }
    }

    fn write_fmt(&mut self, fmt: core::fmt::Arguments<'_>) -> std::io::Result<()> {
        match self.inner.write_fmt(fmt) {
            Ok(()) => Ok(()),
            Err(WriteFmtError::FmtError) => Err(
                io_error_with_debug(std::io::ErrorKind::Other, &WriteFmtError::<T::Error>::FmtError),
            ),
            Err(WriteFmtError::Other(e)) => Err(to_std_error(e)),
        }
    }

    fn flush(&mut self) -> (r: std::io::Result<()>)
        ensures
            old(self).spec_inner().models_sink() ==> final(self).spec_inner().models_sink()
                && final(self).spec_inner().sink() == old(self).spec_inner().sink(),
    {
        match self.inner.flush() {
            Ok(()) => Ok(()),
            Err(e) => Err(to_std_error(e)),
        }
    }
}

impl<T: Seek> std::io::Seek for ToStd<T> {
    /// The position is the inner stream's, moved to the same target.
    fn seek(&mut self, pos: std::io::SeekFrom) -> (r: std::io::Result<u64>)
        ensures
            old(self).spec_inner().models_seek() ==> final(self).spec_inner().models_seek() && match r {
                Ok(p) => p == seek_from_target(
                    seek_from_std(pos),
                    old(self).spec_inner().seek_position(),
                    old(self).spec_inner().seek_end(),
                ) && final(self).spec_inner().seek_position() == p,
                Err(_) => final(self).spec_inner().seek_position() == old(self).spec_inner().seek_position(),
            },
    {
        match self.inner.seek(crate::io::SeekFrom::from(pos)) {
            Ok(p) => Ok(p),
            Err(e) => Err(to_std_error(e)),
        }
    }

    fn rewind(&mut self) -> (r: std::io::Result<()>)
        ensures
            old(self).spec_inner().models_seek() && r is Ok ==> final(self).spec_inner().models_seek()
                && final(self).spec_inner().seek_position() == 0,
    {
        match self.inner.rewind() {
            Ok(()) => Ok(()),
            Err(e) => Err(to_std_error(e)),
        }
    }

    fn stream_position(&mut self) -> (r: std::io::Result<u64>)
        ensures
            old(self).spec_inner().models_seek() ==> final(self).spec_inner().models_seek()
                && final(self).spec_inner().seek_position() == old(self).spec_inner().seek_position()
                && (r matches Ok(p) ==> p == old(self).spec_inner().seek_position()),
    {
        match self.inner.stream_position() {
            Ok(p) => Ok(p),
            Err(e) => Err(to_std_error(e)),
        }
    }

    fn seek_relative(&mut self, offset: i64) -> (r: std::io::Result<()>)
        ensures
            old(self).spec_inner().models_seek() && r is Ok ==> final(self).spec_inner().models_seek()
                && final(self).spec_inner().seek_position() == old(self).spec_inner().seek_position() + offset,
    {
        match self.inner.seek_relative(offset) {
            Ok(()) => Ok(()),
            Err(e) => Err(to_std_error(e)),
        }
    }
}

/// What a write through a `std::io`-style writer reports to this crate's [`Write`] contract: a
/// writer that accepted no byte of a non-empty buffer has no room left, which is a
/// `WriteZero` error here; any other outcome is passed on.
pub fn std_write_outcome(outcome: std::io::Result<usize>, len: usize) -> (r: std::io::Result<usize>)
    ensures
        outcome matches Ok(n) && (n > 0 || len == 0) ==> r == outcome,
        outcome matches Ok(n) && n == 0 && len > 0 ==> r is Err,
        outcome is Err ==> r == outcome,
{
    match outcome {
        Ok(0) if len > 0 => Err(io_error_of_kind(std::io::ErrorKind::WriteZero)),
        other => other,
    }
}

/// What a `std::io` writer reports for an error of the wrapped writer, given that error and its
/// kind: a writer that reports `WriteZero` has no room left, which is `Ok(0)` for `std::io`; any
/// other error is converted and passed on.
pub fn std_write_error<E: Error>(err: E, kind: ErrorKind) -> (r: std::io::Result<usize>)
    ensures
        kind == ErrorKind::WriteZero ==> r matches Ok(0usize),
        kind != ErrorKind::WriteZero ==> r is Err,
{
    if kind == ErrorKind::WriteZero {
        Ok(0)
    } else {
        Err(to_std_error(err))
    }
}

/// The error of an exact read through a `std::io` reader, given that reader's error and the
/// error's kind: kind `UnexpectedEof` means the stream ended too early; any other error is passed
/// on.
pub fn std_read_exact_error(err: std::io::Error, kind: std::io::ErrorKind) -> (r: ReadExactError<std::io::Error>)
    ensures
        kind matches std::io::ErrorKind::UnexpectedEof ==> r matches ReadExactError::UnexpectedEof,
        !(kind matches std::io::ErrorKind::UnexpectedEof) ==> r == ReadExactError::Other(err),
{
    if matches!(kind, std::io::ErrorKind::UnexpectedEof) {
        ReadExactError::UnexpectedEof
    } else {
        ReadExactError::Other(err)
    }
}

/// What an exact read through a `std::io` reader reports to this crate: success is passed on,
/// and an error is mapped by [`std_read_exact_error`] according to its kind.
pub fn std_read_exact_outcome(outcome: std::io::Result<()>) -> (r: Result<(), ReadExactError<std::io::Error>>)
    ensures
        outcome is Ok ==> r is Ok,
        outcome matches Err(e) ==> if std_error_kind(e) == std::io::ErrorKind::UnexpectedEof {
            r matches Err(ReadExactError::UnexpectedEof)
        } else {
            r == Err::<(), ReadExactError<std::io::Error>>(ReadExactError::Other(e))
        },
{
    match outcome {
        Ok(()) => Ok(()),
        Err(e) => {
            let kind = io_error_kind_of(&e);
            Err(std_read_exact_error(e, kind))
        },
    }
}

} // verus!
