//! An in-memory buffer with a position, readable, writable and seekable like a stream.
use vstd::prelude::*;
use crate::io::{stream_from, BufRead, Error, ErrorKind, ErrorType, Read, ReadReady, Seek, SeekFrom, Write, WriteReady};
use crate::slice_io::copy_prefix;
use crate::storage::overwrite;

verus! {

/// An in-memory buffer of bytes that a [`Cursor`] can read from. Only the buffer types of this
/// crate implement it.
pub trait ByteBuffer: crate::private::Sealed {
    /// The bytes of the buffer.
    open spec fn bytes(&self) -> Seq<u8> {
        Seq::empty()
    }

    /// The bytes of the buffer as a slice.
    fn as_bytes(&self) -> (r: &[u8])
        ensures
            r@ == self.bytes(),
    ;
}

impl<const N: usize> ByteBuffer for [u8; N] {
    open spec fn bytes(&self) -> Seq<u8> {
        self@
    }

    fn as_bytes(&self) -> (r: &[u8]) {
        self.as_slice()
    }
}

impl<'a> ByteBuffer for &'a [u8] {
    open spec fn bytes(&self) -> Seq<u8> {
        (**self)@
    }

    fn as_bytes(&self) -> (r: &[u8]) {
        *self
    }
}

impl<'a> ByteBuffer for &'a mut [u8] {
    open spec fn bytes(&self) -> Seq<u8> {
        (**self)@
    }

    fn as_bytes(&self) -> (r: &[u8]) {
        &**self
    }
}

impl ByteBuffer for Vec<u8> {
    open spec fn bytes(&self) -> Seq<u8> {
        self@
    }

    fn as_bytes(&self) -> (r: &[u8]) {
        self.as_slice()
    }
}

impl<'a> ByteBuffer for &'a mut Vec<u8> {
    open spec fn bytes(&self) -> Seq<u8> {
        (**self)@
    }

    fn as_bytes(&self) -> (r: &[u8]) {
        (**self).as_slice()
    }
}

impl ByteBuffer for Box<[u8]> {
    open spec fn bytes(&self) -> Seq<u8> {
        (**self)@
    }

    fn as_bytes(&self) -> (r: &[u8]) {
        &**self
    }
}

/// The position `pos` clamped to a buffer of `len` bytes.
pub open spec fn clamp_pos(pos: u64, len: nat) -> int {
    if pos < len {
        pos as int
    } else {
        len as int
    }
}

/// The bytes of `bytes` at and after the position `pos` (none when `pos` is past the end).
pub open spec fn remaining(bytes: Seq<u8>, pos: u64) -> Seq<u8> {
    bytes.skip(clamp_pos(pos, bytes.len()))
}

/// `base + offset` when it is a valid stream position.
pub open spec fn offset_position(base: int, offset: int) -> Option<u64> {
    if 0 <= base + offset <= u64::MAX {
        Some((base + offset) as u64)
    } else {
        None
    }
}

/// Where a seek lands in a stream of `len` bytes whose position is `pos`, or `None` when the
/// target is negative or beyond `u64`.
pub open spec fn seek_target(len: nat, pos: u64, style: SeekFrom) -> Option<u64> {
    match style {
        SeekFrom::Start(n) => Some(n),
        SeekFrom::End(n) => offset_position(len as int, n as int),
        SeekFrom::Current(n) => offset_position(pos as int, n as int),
    }
}

/// The bytes of a growable buffer `old` after writing `data` at `at`: existing bytes are
/// overwritten and the buffer grows when the data runs past its end.
pub open spec fn grown_written(old: Seq<u8>, at: int, data: Seq<u8>) -> Seq<u8> {
    if at + data.len() <= old.len() {
        overwrite(old, at, data)
    } else {
        old.take(at) + data
    }
}

/// Seeking to `Start(n)` lands on `n`, to `Current(0)` stays put, and to `End(0)` lands on the
/// end of the buffer.
pub proof fn lemma_seek_landmarks(len: nat, pos: u64, n: u64)
    requires
        len <= u64::MAX,
    ensures
        seek_target(len, pos, SeekFrom::Start(n)) == Some(n),
        seek_target(len, pos, SeekFrom::Current(0)) == Some(pos),
        seek_target(len, pos, SeekFrom::End(0)) == Some(len as u64),
{
}

/// Consuming `amt` buffered bytes leaves the rest: the remaining bytes after moving `amt` past a
/// position are those before the move without their first `amt`.
pub proof fn lemma_consume_skips(bytes: Seq<u8>, pos: u64, amt: nat)
    requires
        pos + amt <= u64::MAX,
        amt <= remaining(bytes, pos).len(),
    ensures
        remaining(bytes, (pos + amt) as u64) == remaining(bytes, pos).skip(amt as int),
{
    assert(remaining(bytes, (pos + amt) as u64) =~= remaining(bytes, pos).skip(amt as int));
}

/// Two reads in a row return what one read of their combined length would: the first `a`
/// remaining bytes, then the first `b` of those after them.
pub proof fn lemma_reads_compose(bytes: Seq<u8>, pos: u64, a: nat, b: nat)
    requires
        pos + a <= u64::MAX,
        a + b <= remaining(bytes, pos).len(),
    ensures
        remaining(bytes, pos).take(a as int) + remaining(bytes, (pos + a) as u64).take(b as int)
            == remaining(bytes, pos).take((a + b) as int),
{
    lemma_consume_skips(bytes, pos, a);
    let rem = remaining(bytes, pos);
    assert(rem.take(a as int) + rem.skip(a as int).take(b as int) =~= rem.take((a + b) as int));
}

/// What a cursor over a vector writes reads back: after writing `data` at `at` (at most the
/// vector's length), the bytes from `at` on begin with `data`, those before `at` are kept, and
/// the vector is as long as the longer of the old bytes and the write.
pub proof fn lemma_grown_write_reads_back(old: Seq<u8>, at: u64, data: Seq<u8>)
    requires
        at <= old.len(),
    ensures
        remaining(grown_written(old, at as int, data), at).take(data.len() as int) == data,
        grown_written(old, at as int, data).take(at as int) == old.take(at as int),
        grown_written(old, at as int, data).len() == if at + data.len() <= old.len() {
            old.len()
        } else {
            (at + data.len()) as nat
        },
{
    let w = grown_written(old, at as int, data);
    assert(remaining(w, at).take(data.len() as int) =~= data);
    assert(w.take(at as int) =~= old.take(at as int));
}

/// A `Cursor` wraps an in-memory buffer and provides it with a [`Seek`] implementation.
///
/// `Cursor`s are used with in-memory buffers, anything implementing [`ByteBuffer`],
/// to allow them to implement [`Read`] and/or [`Write`], allowing these buffers to be used
/// anywhere you might use a reader or writer that does actual I/O.
#[derive(Debug, Default, PartialEq, Eq)]
pub struct Cursor<T> {
    inner: T,
    pos: u64,
}

impl<T> Cursor<T> {
    /// The wrapped buffer.
    pub closed spec fn spec_inner(&self) -> T {
        self.inner
    }

    /// The position of the cursor.
    pub closed spec fn spec_pos(&self) -> u64 {
        self.pos
    }

    /// Creates a new cursor wrapping the provided underlying in-memory buffer.
    ///
    /// Cursor initial position is `0` even if the underlying buffer is not empty.
    pub fn new(inner: T) -> (r: Cursor<T>)
        ensures
            r.spec_inner() == inner,
            r.spec_pos() == 0,
    {
        Cursor { inner, pos: 0 }
    }

    /// Consumes this cursor, returning the underlying value.
    pub fn into_inner(self) -> (r: T)
        ensures
            r == self.spec_inner(),
    {
        self.inner
    }

    /// Gets a reference to the underlying value in this cursor.
    pub fn get_ref(&self) -> (r: &T)
        ensures
            *r == self.spec_inner(),
    {
        &self.inner
    }

    /// Gets a mutable reference to the underlying value in this cursor.
    ///
    /// Care should be taken to avoid modifying the internal I/O state of the
    /// underlying value as it may corrupt this cursor's position.
    pub fn get_mut(&mut self) -> (r: &mut T)
        ensures
            *r == old(self).spec_inner(),
            final(self).spec_inner() == *final(r),
            final(self).spec_pos() == old(self).spec_pos(),
    {
        &mut self.inner
    }

    /// Returns the current position of this cursor.
    pub fn position(&self) -> (r: u64)
        ensures
            r == self.spec_pos(),
    {
        self.pos
    }

    /// Sets the position of this cursor.
    pub fn set_position(&mut self, pos: u64)
        ensures
            final(self).spec_pos() == pos,
            final(self).spec_inner() == old(self).spec_inner(),
    {
        self.pos = pos;
    }
}

impl<T: ByteBuffer> Cursor<T> {
    /// Returns the remaining slice.
    pub fn remaining_slice(&self) -> (r: &[u8])
        ensures
            r@ == remaining(self.spec_inner().bytes(), self.spec_pos()),
    {
        let bytes = self.inner.as_bytes();
        let len = bytes.len();
        let pos = if self.pos < len as u64 {
            self.pos as usize
        } else {
            len
        };
        vstd::slice::slice_subrange(bytes, pos, len)
    }

    /// Returns `true` if the remaining slice is empty.
    pub fn is_empty(&self) -> (r: bool)
        ensures
            r == (remaining(self.spec_inner().bytes(), self.spec_pos()).len() == 0),
    {
        self.remaining_slice().is_empty()
    }
}

impl<T: Clone> Clone for Cursor<T> {
    fn clone(&self) -> (r: Self)
        ensures
            r.spec_pos() == self.spec_pos(),
            cloned(self.spec_inner(), r.spec_inner()),
    {
        Cursor { inner: self.inner.clone(), pos: self.pos }
    }

    fn clone_from(&mut self, other: &Self)
        ensures
            final(self).spec_pos() == other.spec_pos(),
    {
        self.inner = other.inner.clone();
        self.pos = other.pos;
    }
}

impl<T: ByteBuffer> ErrorType for Cursor<T> {
    type Error = CursorError;

    /// A read delivers the bytes from the position on.
    open spec fn models_stream(&self) -> bool {
        true
    }

    open spec fn stream(&self) -> Seq<u8> {
        remaining(self.spec_inner().bytes(), self.spec_pos())
    }

    /// A read never fails and copies as many bytes as fit.
    open spec fn reads_fully(&self) -> bool {
        true
    }

    /// A write overwrites the bytes at the position rather than appending, so it is not
    /// described as a sink.
    open spec fn models_sink(&self) -> bool {
        false
    }
}

/// Errors that could be returned by `Cursor`.
#[derive(Debug, Copy, Clone, PartialEq, Eq, Structural)]
#[non_exhaustive]
pub enum CursorError {
    /// An invalid seek was attempted (e.g., seeking to a negative position).
    InvalidSeek,
    /// The cursor's buffer is full and cannot accept more data.
    Full,
}

impl Error for CursorError {
    /// An invalid seek is invalid input; a full buffer is a write of zero bytes.
    open spec fn models_kind(&self) -> bool {
        true
    }

    open spec fn kind_of(&self) -> ErrorKind {
        match self {
            CursorError::InvalidSeek => ErrorKind::InvalidInput,
            CursorError::Full => ErrorKind::WriteZero,
        }
    }

    fn kind(&self) -> (k: ErrorKind)
        ensures
            *self == CursorError::InvalidSeek ==> k == ErrorKind::InvalidInput,
            *self == CursorError::Full ==> k == ErrorKind::WriteZero,
    {
        match self {
            CursorError::InvalidSeek => ErrorKind::InvalidInput,
            CursorError::Full => ErrorKind::WriteZero,
        }
    }
}

impl CursorError {
    /// A human readable description of the error.
    pub fn message(&self) -> (m: &'static str)
        ensures
            *self matches CursorError::InvalidSeek ==> m@ == "invalid seek to a negative position"@,
            *self matches CursorError::Full ==> m@ == "cursor buffer is full"@,
    {
        match self {
            CursorError::InvalidSeek => "invalid seek to a negative position",
            CursorError::Full => "cursor buffer is full",
        }
    }
}


impl<T: ByteBuffer> Read for Cursor<T> {
    /// Copies as many of the remaining bytes as fit into `buf` and advances past them.
    fn read(&mut self, buf: &mut [u8]) -> (r: Result<usize, Self::Error>)
        ensures
            ({
                let rem = remaining(old(self).spec_inner().bytes(), old(self).spec_pos());
                let amt = if old(buf)@.len() < rem.len() {
                    old(buf)@.len()
                } else {
                    rem.len()
                };
                &&& r == Ok::<usize, CursorError>(amt as usize)
                &&& final(buf)@ == overwrite(old(buf)@, 0, rem.take(amt as int))
                &&& final(self).spec_pos() == old(self).spec_pos() + amt
                &&& final(self).spec_inner() == old(self).spec_inner()
            }),
    {
        let total = self.inner.as_bytes().len();
        let slice = self.remaining_slice();
        let amt = if buf.len() < slice.len() {
            buf.len()
        } else {
            slice.len()
        };
        assert(slice@.len() == total - clamp_pos(self.pos, total as nat));
        assert(amt == 0 || self.pos + amt <= total);
        if amt == 1 {
            buf[0] = slice[0];
            proof {
                assert(buf@ =~= overwrite(old(buf)@, 0, slice@.take(1)));
            }
        } else {
            copy_prefix(buf, slice, amt);
        }
        self.pos = self.pos + amt as u64;
        proof {
            let rem = remaining(old(self).spec_inner().bytes(), old(self).spec_pos());
            assert(old(self).stream() == rem);
            assert(buf@.take(amt as int) =~= rem.take(amt as int));
            lemma_consume_skips(old(self).spec_inner().bytes(), old(self).spec_pos(), amt as nat);
        }
        Ok(amt)
    }
}

impl<T: ByteBuffer> BufRead for Cursor<T> {
    /// The position must stay within `u64`.
    open spec fn can_consume(&self, amt: usize) -> bool {
        self.spec_pos() + amt <= u64::MAX
    }

    fn fill_buf(&mut self) -> (r: Result<&[u8], Self::Error>)
        ensures
            r matches Ok(s) && s@ == remaining(old(self).spec_inner().bytes(), old(self).spec_pos()),
            *final(self) == *old(self),
    {
        Ok(self.remaining_slice())
    }

    fn consume(&mut self, amt: usize)
        ensures
            final(self).spec_pos() == old(self).spec_pos() + amt,
            final(self).spec_inner() == old(self).spec_inner(),
    {
        self.pos = self.pos + amt as u64;
    }
}

impl<T: ByteBuffer> Seek for Cursor<T> {
    /// The position counts from the start of the buffer; the end is its length.
    open spec fn models_seek(&self) -> bool {
        true
    }

    open spec fn seek_position(&self) -> int {
        self.spec_pos() as int
    }

    open spec fn seek_end(&self) -> int {
        self.spec_inner().bytes().len() as int
    }

    /// Every position a `u64` holds can be reached.
    open spec fn seek_limit(&self) -> int {
        u64::MAX as int
    }

    /// Reading delivers the buffer's bytes from the position on.
    open spec fn models_seek_stream(&self) -> bool {
        true
    }

    open spec fn seek_contents(&self) -> Seq<u8> {
        self.spec_inner().bytes()
    }

    fn seek(&mut self, style: SeekFrom) -> (r: Result<u64, Self::Error>)
        ensures
            final(self).spec_inner() == old(self).spec_inner(),
            match seek_target(old(self).spec_inner().bytes().len(), old(self).spec_pos(), style) {
                Some(p) => r == Ok::<u64, CursorError>(p) && final(self).spec_pos() == p,
                None => r == Err::<u64, CursorError>(CursorError::InvalidSeek) && final(self).spec_pos() == old(self).spec_pos(),
            },
    {
        proof {
            assert((*old(self)).models_seek());
            assert((*old(self)).seek_position() == old(self).spec_pos());
            assert((*old(self)).seek_end() == old(self).spec_inner().bytes().len());
            assert((*old(self)).seek_limit() == u64::MAX);
            assert((*old(self)).models_seek_stream());
        }
        let r = match style {
            SeekFrom::Start(n) => {
                self.pos = n;
                Ok(n)
            },
            _ => {
                let (base_pos, offset) = match style {
                    SeekFrom::End(n) => (self.inner.as_bytes().len() as u64, n),
                    SeekFrom::Current(n) => (self.pos, n),
                    SeekFrom::Start(n) => (n, 0),
                };
                match base_pos.checked_add_signed(offset) {
                    Some(new_pos) => {
                        self.pos = new_pos;
                        Ok(new_pos)
                    },
                    None => Err(CursorError::InvalidSeek),
                }
            },
        };
        proof {
            assert((*self).models_seek_stream());
            assert((*self).seek_contents() == self.spec_inner().bytes());
            assert((*self).stream() == remaining(self.spec_inner().bytes(), self.spec_pos()));
            assert(remaining(self.spec_inner().bytes(), self.spec_pos()) =~= stream_from(
                self.spec_inner().bytes(),
                self.spec_pos() as int,
            ));
        }
        r
    }
}

impl<T: ByteBuffer> ReadReady for Cursor<T> {
    fn read_ready(&mut self) -> (r: Result<bool, Self::Error>)
        ensures
            r == Ok::<bool, CursorError>(true),
            *final(self) == *old(self),
    {
        Ok(true)
    }
}

/// Writes as many bytes of `buf` as fit into the fixed-size `inner` at `pos` (clamped to its
/// length): `Ok` with the count, or `Full` when `buf` is not empty and nothing fits.
fn write_fixed(inner: &mut [u8], pos: u64, buf: &[u8]) -> (r: Result<usize, CursorError>)
    ensures
        ({
            let p = clamp_pos(pos, old(inner)@.len());
            let room = old(inner)@.len() - p;
            let amt = if buf@.len() < room {
                buf@.len() as int
            } else {
                room
            };
            &&& buf@.len() > 0 && amt == 0 ==> r == Err::<usize, CursorError>(CursorError::Full)
                && final(inner)@ == old(inner)@
            &&& !(buf@.len() > 0 && amt == 0) ==> r == Ok::<usize, CursorError>(amt as usize)
                && final(inner)@ == overwrite(old(inner)@, p, buf@.take(amt))
        }),
{
    let len = inner.len();
    let p = if pos < len as u64 {
        pos as usize
    } else {
        len
    };
    let (_, remaining) = inner.split_at_mut(p);
    let amt = if buf.len() < remaining.len() {
        buf.len()
    } else {
        remaining.len()
    };
    if !buf.is_empty() && amt == 0 {
        return Err(CursorError::Full);
    }
    let ghost before = remaining@;
    copy_prefix(remaining, buf, amt);
    proof {
        assert(inner@ =~= overwrite(old(inner)@, p as int, buf@.take(amt as int)));
    }
    Ok(amt)
}

/// Writes `buf` into the growable `inner` at `pos` (clamped to its length), overwriting what is
/// there and growing the vector as needed.
fn write_growing(inner: &mut Vec<u8>, pos: u64, buf: &[u8])
    ensures
        final(inner)@ == grown_written(old(inner)@, clamp_pos(pos, old(inner)@.len()), buf@),
{
    let len = inner.len();
    let p = if pos < len as u64 {
        pos as usize
    } else {
        len
    };
    // If position is at the end, just append.
    if p == len {
        inner.extend_from_slice(buf);
        proof {
            assert(inner@ =~= grown_written(old(inner)@, p as int, buf@));
        }
    } else {
        // Overwrite existing bytes first, then extend if needed.
        let overlap = if buf.len() < len - p {
            buf.len()
        } else {
            len - p
        };
        let mut i: usize = 0;
        while i < overlap
            invariant
                overlap <= buf@.len(),
                p + overlap <= len,
                len == inner@.len(),
                len == old(inner)@.len(),
                0 <= i <= overlap,
                forall|k: int|
                    0 <= k < len ==> #[trigger] inner@[k] == (if p <= k < p + i {
                        buf@[k - p]
                    } else {
                        old(inner)@[k]
                    }),
            decreases overlap - i,
        {
            inner.set(p + i, buf[i]);
            i = i + 1;
        }
        if buf.len() > overlap {
            let tail = vstd::slice::slice_subrange(buf, overlap, buf.len());
            inner.extend_from_slice(tail);
        }
        proof {
            assert(inner@ =~= grown_written(old(inner)@, p as int, buf@));
        }
    }
}

// Write implementation for Cursor<&mut [u8]>.
impl<'a> Write for Cursor<&'a mut [u8]> {
    /// Writes as many bytes as fit between the position and the end of the slice.
    fn write(&mut self, buf: &[u8]) -> (r: Result<usize, Self::Error>)
        ensures
            ({
                let inner = old(self).spec_inner()@;
                let p = clamp_pos(old(self).spec_pos(), inner.len());
                let room = inner.len() - p;
                let amt = if buf@.len() < room {
                    buf@.len() as int
                } else {
                    room
                };
                &&& buf@.len() > 0 && amt == 0 ==> r == Err::<usize, CursorError>(CursorError::Full)
                    && final(self).spec_inner()@ == inner && final(self).spec_pos() == old(self).spec_pos()
                &&& !(buf@.len() > 0 && amt == 0) ==> r == Ok::<usize, CursorError>(amt as usize)
                    && final(self).spec_inner()@ == overwrite(inner, p, buf@.take(amt))
                    && final(self).spec_pos() == old(self).spec_pos() + amt
            }),
    {
        proof {
            assert(!(*old(self)).models_sink());
        }
        let pos = self.pos;
        let total = self.inner.len();
        let n = write_fixed(self.inner, pos, buf)?;
        assert(n == 0 || pos + n <= total);
        self.pos = self.pos + n as u64;
        Ok(n)
    }

    fn flush(&mut self) -> (r: Result<(), Self::Error>)
        ensures
            r is Ok,
            *final(self) == *old(self),
    {
        Ok(())
    }
}

impl<'a> WriteReady for Cursor<&'a mut [u8]> {
    fn write_ready(&mut self) -> (r: Result<bool, Self::Error>)
        ensures
            r == Ok::<bool, CursorError>(true),
            *final(self) == *old(self),
    {
        Ok(true)
    }
}


// Write implementation for Cursor<Vec<u8>>.
impl Write for Cursor<Vec<u8>> {
    /// Writes all of `buf` at the position (clamped to the end of the vector), overwriting and
    /// then growing the vector. The position advances by `buf.len()`; when that would leave
    /// `u64`, nothing is written and `Full` is returned.
    fn write(&mut self, buf: &[u8]) -> (r: Result<usize, Self::Error>)
        ensures
            old(self).spec_pos() + buf@.len() > u64::MAX ==> r == Err::<usize, CursorError>(
                CursorError::Full,
            ) && *final(self) == *old(self),
            old(self).spec_pos() + buf@.len() <= u64::MAX ==> r == Ok::<usize, CursorError>(
                buf@.len() as usize,
            ) && final(self).spec_inner()@ == grown_written(
                old(self).spec_inner()@,
                clamp_pos(old(self).spec_pos(), old(self).spec_inner()@.len()),
                buf@,
            ) && final(self).spec_pos() == old(self).spec_pos() + buf@.len(),
    {
        proof {
            assert(!(*old(self)).models_sink());
        }
        let new_pos = match self.pos.checked_add(buf.len() as u64) {
            Some(p) => p,
            None => return Err(CursorError::Full),
        };
        write_growing(&mut self.inner, self.pos, buf);
        self.pos = new_pos;
        Ok(buf.len())
    }

    fn flush(&mut self) -> (r: Result<(), Self::Error>)
        ensures
            r is Ok,
            *final(self) == *old(self),
    {
        Ok(())
    }
}

impl WriteReady for Cursor<Vec<u8>> {
    fn write_ready(&mut self) -> (r: Result<bool, Self::Error>)
        ensures
            r == Ok::<bool, CursorError>(true),
            *final(self) == *old(self),
    {
        Ok(true)
    }
}

// Write implementation for Cursor<&mut Vec<u8>>.
impl<'a> Write for Cursor<&'a mut Vec<u8>> {
    /// Writes all of `buf` at the position (clamped to the end of the vector), overwriting and
    /// then growing the vector. The position advances by `buf.len()`; when that would leave
    /// `u64`, nothing is written and `Full` is returned.
    fn write(&mut self, buf: &[u8]) -> (r: Result<usize, Self::Error>)
        ensures
            old(self).spec_pos() + buf@.len() > u64::MAX ==> r == Err::<usize, CursorError>(
                CursorError::Full,
            ) && *final(self) == *old(self),
            old(self).spec_pos() + buf@.len() <= u64::MAX ==> r == Ok::<usize, CursorError>(
                buf@.len() as usize,
            ) && (*final(self).spec_inner())@ == grown_written(
                (*old(self).spec_inner())@,
                clamp_pos(old(self).spec_pos(), (*old(self).spec_inner())@.len()),
                buf@,
            ) && final(self).spec_pos() == old(self).spec_pos() + buf@.len(),
    {
        proof {
            assert(!(*old(self)).models_sink());
        }
        let new_pos = match self.pos.checked_add(buf.len() as u64) {
            Some(p) => p,
            None => return Err(CursorError::Full),
        };
        write_growing(self.inner, self.pos, buf);
        self.pos = new_pos;
        Ok(buf.len())
    }

    fn flush(&mut self) -> (r: Result<(), Self::Error>)
        ensures
            r is Ok,
            *final(self) == *old(self),
    {
        Ok(())
    }
}

impl<'a> WriteReady for Cursor<&'a mut Vec<u8>> {
    fn write_ready(&mut self) -> (r: Result<bool, Self::Error>)
        ensures
            r == Ok::<bool, CursorError>(true),
            *final(self) == *old(self),
    {
        Ok(true)
    }
}

// Write implementation for Cursor<Box<[u8]>>.
impl Write for Cursor<Box<[u8]>> {
    /// Writes as many bytes as fit between the position and the end of the boxed slice.
    fn write(&mut self, buf: &[u8]) -> (r: Result<usize, Self::Error>)
        ensures
            ({
                let inner = old(self).spec_inner()@;
                let p = clamp_pos(old(self).spec_pos(), inner.len());
                let room = inner.len() - p;
                let amt = if buf@.len() < room {
                    buf@.len() as int
                } else {
                    room
                };
                &&& buf@.len() > 0 && amt == 0 ==> r == Err::<usize, CursorError>(CursorError::Full)
                    && final(self).spec_inner()@ == inner && final(self).spec_pos() == old(self).spec_pos()
                &&& !(buf@.len() > 0 && amt == 0) ==> r == Ok::<usize, CursorError>(amt as usize)
                    && final(self).spec_inner()@ == overwrite(inner, p, buf@.take(amt))
                    && final(self).spec_pos() == old(self).spec_pos() + amt
            }),
    {
        proof {
            assert(!(*old(self)).models_sink());
        }
        let pos = self.pos;
        let total = self.inner.len();
        let n = write_fixed(&mut self.inner, pos, buf)?;
        assert(n == 0 || pos + n <= total);
        self.pos = self.pos + n as u64;
        Ok(n)
    }

    fn flush(&mut self) -> (r: Result<(), Self::Error>)
        ensures
            r is Ok,
            *final(self) == *old(self),
    {
        Ok(())
    }
}

impl WriteReady for Cursor<Box<[u8]>> {
    fn write_ready(&mut self) -> (r: Result<bool, Self::Error>)
        ensures
            r == Ok::<bool, CursorError>(true),
            *final(self) == *old(self),
    {
        Ok(true)
    }
}

} // verus!
