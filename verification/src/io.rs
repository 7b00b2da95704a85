//! Blocking byte-stream I/O traits: readers, writers, buffered readers and seekable streams.
use vstd::prelude::*;
use vstd::string::StringSliceAdditionalSpecFns;

verus! {

/// Enumeration of possible methods to seek within an I/O object.
#[derive(Debug, Copy, Clone, PartialEq, Eq, Structural)]
pub enum SeekFrom {
    /// Sets the offset to the provided number of bytes.
    Start(u64),
    /// Sets the offset to the size of this object plus the specified number of bytes.
    End(i64),
    /// Sets the offset to the current position plus the specified number of bytes.
    Current(i64),
}

/// The position that seeking to `pos` aims at, from a stream standing at `position` whose end
/// is at `end`: counted from the start, the end or the current position.
pub open spec fn seek_from_target(pos: SeekFrom, position: int, end: int) -> int {
    match pos {
        SeekFrom::Start(n) => n as int,
        SeekFrom::End(n) => end + n,
        SeekFrom::Current(n) => position + n,
    }
}

/// What reading a stream over `contents` delivers from `position` on: the bytes from there to
/// the end, none when the position is at or past the end.
pub open spec fn stream_from(contents: Seq<u8>, position: int) -> Seq<u8> {
    contents.skip(
        if position < contents.len() {
            position
        } else {
            contents.len() as int
        },
    )
}

/// Possible kinds of errors.
///
/// This list is intended to grow over time and it is not recommended to
/// exhaustively match against it. In application code, use `match` for the `ErrorKind`
/// values you are expecting; use `_` to match "all other errors".
#[derive(Debug, Copy, Clone, PartialEq, Eq, Structural)]
#[non_exhaustive]
pub enum ErrorKind {
    /// Unspecified error kind.
    Other,
    /// An entity was not found, often a file.
    NotFound,
    /// The operation lacked the necessary privileges to complete.
    PermissionDenied,
    /// The connection was refused by the remote server.
    ConnectionRefused,
    /// The connection was reset by the remote server.
    ConnectionReset,
    /// The connection was aborted (terminated) by the remote server.
    ConnectionAborted,
    /// The network operation failed because it was not connected yet.
    NotConnected,
    /// A socket address could not be bound because the address is already in
    /// use elsewhere.
    AddrInUse,
    /// A nonexistent interface was requested or the requested address was not
    /// local.
    AddrNotAvailable,
    /// The operation failed because a pipe was closed.
    BrokenPipe,
    /// An entity already exists, often a file.
    AlreadyExists,
    /// A parameter was incorrect.
    InvalidInput,
    /// Data not valid for the operation were encountered.
    ///
    /// Unlike [`InvalidInput`], this typically means that the operation
    /// parameters were valid, however the error was caused by malformed
    /// input data.
    ///
    /// [`InvalidInput`]: ErrorKind::InvalidInput
    InvalidData,
    /// The I/O operation's timeout expired, causing it to be canceled.
    TimedOut,
    /// This operation was interrupted.
    ///
    /// Interrupted operations can typically be retried.
    Interrupted,
    /// This operation is unsupported on this platform.
    ///
    /// This means that the operation can never succeed.
    Unsupported,
    /// An operation could not be completed, because it failed
    /// to allocate enough memory.
    OutOfMemory,
    /// An attempted write could not write any data.
    WriteZero,
}

impl ErrorKind {
    /// The name of the error kind, as it is displayed.
    pub fn message(&self) -> (m: &'static str)
        ensures
            *self matches ErrorKind::Other ==> m@ == "Other"@,
            *self matches ErrorKind::NotFound ==> m@ == "NotFound"@,
            *self matches ErrorKind::PermissionDenied ==> m@ == "PermissionDenied"@,
            *self matches ErrorKind::ConnectionRefused ==> m@ == "ConnectionRefused"@,
            *self matches ErrorKind::ConnectionReset ==> m@ == "ConnectionReset"@,
            *self matches ErrorKind::ConnectionAborted ==> m@ == "ConnectionAborted"@,
            *self matches ErrorKind::NotConnected ==> m@ == "NotConnected"@,
            *self matches ErrorKind::AddrInUse ==> m@ == "AddrInUse"@,
            *self matches ErrorKind::AddrNotAvailable ==> m@ == "AddrNotAvailable"@,
            *self matches ErrorKind::BrokenPipe ==> m@ == "BrokenPipe"@,
            *self matches ErrorKind::AlreadyExists ==> m@ == "AlreadyExists"@,
            *self matches ErrorKind::InvalidInput ==> m@ == "InvalidInput"@,
            *self matches ErrorKind::InvalidData ==> m@ == "InvalidData"@,
            *self matches ErrorKind::TimedOut ==> m@ == "TimedOut"@,
            *self matches ErrorKind::Interrupted ==> m@ == "Interrupted"@,
            *self matches ErrorKind::Unsupported ==> m@ == "Unsupported"@,
            *self matches ErrorKind::OutOfMemory ==> m@ == "OutOfMemory"@,
            *self matches ErrorKind::WriteZero ==> m@ == "WriteZero"@,
    {
        match self {
            ErrorKind::Other => "Other",
            ErrorKind::NotFound => "NotFound",
            ErrorKind::PermissionDenied => "PermissionDenied",
            ErrorKind::ConnectionRefused => "ConnectionRefused",
            ErrorKind::ConnectionReset => "ConnectionReset",
            ErrorKind::ConnectionAborted => "ConnectionAborted",
            ErrorKind::NotConnected => "NotConnected",
            ErrorKind::AddrInUse => "AddrInUse",
            ErrorKind::AddrNotAvailable => "AddrNotAvailable",
            ErrorKind::BrokenPipe => "BrokenPipe",
            ErrorKind::AlreadyExists => "AlreadyExists",
            ErrorKind::InvalidInput => "InvalidInput",
            ErrorKind::InvalidData => "InvalidData",
            ErrorKind::TimedOut => "TimedOut",
            ErrorKind::Interrupted => "Interrupted",
            ErrorKind::Unsupported => "Unsupported",
            ErrorKind::OutOfMemory => "OutOfMemory",
            ErrorKind::WriteZero => "WriteZero",
        }
    }
}

/// Error trait.
///
/// This trait allows generic code to do limited inspecting of errors,
/// to react differently to different kinds.
pub trait Error: core::fmt::Debug {
    /// Whether [`Error::kind_of`] describes this error's kind. An error type that makes no such
    /// promise keeps the default.
    open spec fn models_kind(&self) -> bool {
        false
    }

    /// The kind of this error, when modeled.
    open spec fn kind_of(&self) -> ErrorKind {
        ErrorKind::Other
    }

    /// Get the kind of this error.
    fn kind(&self) -> (k: ErrorKind)
        ensures
            self.models_kind() ==> k == self.kind_of(),
    ;
}

impl Error for core::convert::Infallible {
    /// `Infallible` has no values, so this is never called.
    fn kind(&self) -> ErrorKind {
        ErrorKind::Other
    }
}

impl Error for ErrorKind {
    /// An error kind is its own kind.
    open spec fn models_kind(&self) -> bool {
        true
    }

    open spec fn kind_of(&self) -> ErrorKind {
        *self
    }

    fn kind(&self) -> (k: ErrorKind)
        ensures
            k == *self,
    {
        *self
    }
}

/// Base trait for all IO traits, defining the error type.
///
/// All IO operations of all traits return the error defined in this trait.
///
/// Having a shared trait instead of having every trait define its own
/// `Error` associated type enforces all impls on the same type use the same error.
pub trait ErrorType {
    /// Error type of all the IO operations on this type.
    type Error: Error;

    /// Whether [`ErrorType::stream`] describes the bytes that reading this object delivers. An
    /// object that makes no such promise keeps the default.
    open spec fn models_stream(&self) -> bool {
        false
    }

    /// The bytes that reading this object will deliver, in order, when it models them.
    open spec fn stream(&self) -> Seq<u8> {
        Seq::empty()
    }

    /// Whether, for an object that models its stream, a read never fails and delivers as many of
    /// the stream's bytes as fit in the buffer. An object that makes no such promise keeps the
    /// default.
    open spec fn reads_fully(&self) -> bool {
        false
    }

    /// Whether [`ErrorType::sink`] describes the bytes written to this object: each write then
    /// appends what it accepted. An object that makes no such promise keeps the default.
    open spec fn models_sink(&self) -> bool {
        false
    }

    /// The bytes written to this object so far, in order, when it models them.
    open spec fn sink(&self) -> Seq<u8> {
        Seq::empty()
    }
}

impl<T: ?Sized + ErrorType> ErrorType for &mut T {
    type Error = T::Error;

    open spec fn models_stream(&self) -> bool {
        (**self).models_stream()
    }

    open spec fn stream(&self) -> Seq<u8> {
        (**self).stream()
    }

    open spec fn reads_fully(&self) -> bool {
        (**self).reads_fully()
    }

    open spec fn models_sink(&self) -> bool {
        (**self).models_sink()
    }

    open spec fn sink(&self) -> Seq<u8> {
        (**self).sink()
    }
}

/// Error returned by [`Read::read_exact`]
#[derive(Debug, Copy, Clone, PartialEq, Eq, Structural)]
pub enum ReadExactError<E> {
    /// An EOF error was encountered before reading the exact amount of requested bytes.
    UnexpectedEof,
    /// Error returned by the inner Read.
    Other(E),
}

impl<E> From<E> for ReadExactError<E> {
    fn from(err: E) -> (r: Self) {
        Self::Other(err)
    }
}

impl<E> vstd::std_specs::convert::FromSpecImpl<E> for ReadExactError<E> {
    open spec fn obeys_from_spec() -> bool {
        true
    }

    open spec fn from_spec(v: E) -> Self {
        ReadExactError::Other(v)
    }
}

/// Errors that could be returned by `Write` on `&mut [u8]`.
#[derive(Debug, Copy, Clone, PartialEq, Eq, Structural)]
#[non_exhaustive]
pub enum SliceWriteError {
    /// The target slice was full and so could not receive any new data.
    Full,
}

impl Error for SliceWriteError {
    /// A full slice is a write of zero bytes.
    open spec fn models_kind(&self) -> bool {
        true
    }

    open spec fn kind_of(&self) -> ErrorKind {
        ErrorKind::WriteZero
    }

    fn kind(&self) -> (k: ErrorKind)
        ensures
            k == ErrorKind::WriteZero,
    {
        match self {
            SliceWriteError::Full => ErrorKind::WriteZero,
        }
    }
}

/// Error returned by [`Write::write_fmt`]
#[derive(Debug, Copy, Clone, PartialEq, Eq, Structural)]
pub enum WriteFmtError<E> {
    /// An error was encountered while formatting.
    FmtError,
    /// Error returned by the inner Write.
    Other(E),
}

impl<E> From<E> for WriteFmtError<E> {
    fn from(err: E) -> (r: Self) {
        Self::Other(err)
    }
}

impl<E> vstd::std_specs::convert::FromSpecImpl<E> for WriteFmtError<E> {
    open spec fn obeys_from_spec() -> bool {
        true
    }

    open spec fn from_spec(v: E) -> Self {
        WriteFmtError::Other(v)
    }
}

/// Blocking reader.
pub trait Read: ErrorType {
    /// Read some bytes from this source into the specified buffer, returning how many bytes were read.
    ///
    /// If no bytes are currently available to read, the method blocks until at least one byte
    /// becomes available; a non-zero amount of bytes is then copied to the beginning of `buf`.
    /// If the reader is at end-of-file (EOF), `Ok(0)` is returned.
    ///
    /// If `buf.len() == 0`, `read` returns without blocking, with either `Ok(0)` or an error.
    fn read(&mut self, buf: &mut [u8]) -> (r: Result<usize, Self::Error>)
        ensures
            final(buf)@.len() == old(buf)@.len(),
            r matches Ok(n) ==> n <= old(buf)@.len(),
            (*old(self)).models_stream() ==> (*final(self)).models_stream() && match r {
                Ok(n) => {
                    &&& n <= (*old(self)).stream().len()
                    &&& final(buf)@.take(n as int) == (*old(self)).stream().take(n as int)
                    &&& (*final(self)).stream() == (*old(self)).stream().skip(n as int)
                    &&& n == 0 && old(buf)@.len() > 0 ==> (*old(self)).stream().len() == 0
                },
                Err(_) => (*final(self)).stream() == (*old(self)).stream(),
            },
            (*old(self)).models_stream() && (*old(self)).reads_fully() ==> r == Ok::<usize, Self::Error>(
                if old(buf)@.len() < (*old(self)).stream().len() {
                    old(buf)@.len() as usize
                } else {
                    (*old(self)).stream().len() as usize
                },
            ),
    ;

    /// Read the exact number of bytes required to fill `buf`.
    ///
    /// This function calls `read()` in a loop until exactly `buf.len()` bytes have
    /// been read, blocking if needed. A read of no bytes before `buf` is full ends it with
    /// `ReadExactError::UnexpectedEof`. When the reader fails, the bytes it delivered before stay
    /// consumed and are at the front of `buf`.
    fn read_exact(&mut self, buf: &mut [u8]) -> (r: Result<(), ReadExactError<Self::Error>>)
        ensures
            final(buf)@.len() == old(buf)@.len(),
            (*old(self)).models_stream() ==> (*final(self)).models_stream() && match r {
                Ok(()) => {
                    &&& old(buf)@.len() <= (*old(self)).stream().len()
                    &&& final(buf)@ == (*old(self)).stream().take(old(buf)@.len() as int)
                    &&& (*final(self)).stream() == (*old(self)).stream().skip(old(buf)@.len() as int)
                },
                Err(e) => {
                    let k = (*old(self)).stream().len() - (*final(self)).stream().len();
                    &&& 0 <= k <= old(buf)@.len()
                    &&& (*final(self)).stream() == (*old(self)).stream().skip(k)
                    &&& e is Other ==> final(buf)@.take(k) == (*old(self)).stream().take(k)
                    &&& e is UnexpectedEof ==> (*old(self)).stream().len() < old(buf)@.len()
                },
            },
        default_ensures
            old(buf)@.len() == 0 ==> r is Ok,
    {
        let len = buf.len();
        let mut filled: usize = 0;
        let ghost s0 = (*self).stream();
        let ghost m = (*self).models_stream();
        while filled < len
            invariant
                len == buf@.len(),
                len == old(buf)@.len(),
                filled <= len,
                m == (*old(self)).models_stream(),
                s0 == (*old(self)).stream(),
                m ==> self.models_stream() && filled <= s0.len() && buf@.take(filled as int)
                    == s0.take(filled as int) && self.stream() == s0.skip(filled as int),
            ensures
                len == buf@.len(),
                filled <= len,
                m ==> self.models_stream() && filled <= s0.len() && buf@.take(filled as int)
                    == s0.take(filled as int) && self.stream() == s0.skip(filled as int),
                filled < len && m ==> s0.len() == filled,
            decreases len - filled,
        {
            let ghost before = buf@;
            let ghost st = self.stream();
            let (first, rest) = buf.split_at_mut(filled);
            let outcome = self.read(rest);
            proof {
                assert(first@ == before.subrange(0, filled as int));
            }
            match outcome {
                Ok(0) => {
                    proof {
                        if m {
                            assert(buf@.take(filled as int) =~= s0.take(filled as int)) by {
                                assert forall|k: int| 0 <= k < filled implies buf@[k] == s0[k] by {
                                    assert(buf@[k] == before[k]);
                                    assert(before.take(filled as int)[k] == s0.take(filled as int)[k]);
                                }
                            }
                        }
                    }
                    break;
                },
                Ok(n) => {
                    proof {
                        if m {
                            assert(buf@.take(filled + n) =~= s0.take(filled + n)) by {
                                assert forall|k: int| 0 <= k < filled + n implies buf@[k] == s0[k] by {
                                    if k < filled {
                                        assert(buf@[k] == before[k]);
                                        assert(before.take(filled as int)[k] == s0.take(filled as int)[k]);
                                    } else {
                                        assert(buf@[k] == rest@[k - filled]);
                                        assert(rest@.take(n as int)[k - filled] == st.take(n as int)[k - filled]);
                                    }
                                }
                            }
                            assert(st.skip(n as int) =~= s0.skip(filled + n));
                        }
                    }
                    filled = filled + n;
                },
                Err(e) => return Err(ReadExactError::Other(e)),
            }
        }
        if filled == len {
            proof {
                if m {
                    assert(buf@ =~= buf@.take(filled as int));
                }
            }
            Ok(())
        } else {
            Err(ReadExactError::UnexpectedEof)
        }
    }
}

/// Consecutive exact reads deliver consecutive bytes: reading `a` bytes and then `b` bytes from
/// a stream gives, together, what one read of `a + b` bytes would, and leaves the same bytes to
/// read after.
pub proof fn lemma_exact_reads_compose(stream: Seq<u8>, a: nat, b: nat)
    requires
        a + b <= stream.len(),
    ensures
        stream.take(a as int) + stream.skip(a as int).take(b as int) == stream.take((a + b) as int),
        stream.skip(a as int).skip(b as int) == stream.skip((a + b) as int),
{
    assert(stream.take(a as int) + stream.skip(a as int).take(b as int) =~= stream.take((a + b) as int));
    assert(stream.skip(a as int).skip(b as int) =~= stream.skip((a + b) as int));
}

/// Two complete writes to a writer that records what it is sent append their bytes in order:
/// the record then ends with the first bytes followed by the second.
pub proof fn lemma_writes_append_in_order(sink: Seq<u8>, first: Seq<u8>, second: Seq<u8>)
    ensures
        (sink + first) + second == sink + (first + second),
        ((sink + first) + second).skip(sink.len() as int) == first + second,
{
    assert((sink + first) + second =~= sink + (first + second));
    assert(((sink + first) + second).skip(sink.len() as int) =~= first + second);
}

/// Blocking buffered reader.
pub trait BufRead: Read {
    /// Whether `consume(amt)` may be called: the amount is one that this buffer can mark as
    /// consumed.
    open spec fn can_consume(&self, amt: usize) -> bool {
        true
    }

    /// Return the contents of the internal buffer, filling it with more data from the inner reader if it is empty.
    ///
    /// If no bytes are currently available to read, this function blocks until at least one byte is available.
    ///
    /// If the reader is at end-of-file (EOF), an empty slice is returned.
    fn fill_buf(&mut self) -> (r: Result<&[u8], Self::Error>);

    /// Tell this buffer that `amt` bytes have been consumed from the buffer, so they should no longer be returned in calls to `fill_buf`.
    fn consume(&mut self, amt: usize)
        requires
            old(self).can_consume(amt),
    ;
}

/// Blocking writer.
pub trait Write: ErrorType {
    /// Write a buffer into this writer, returning how many bytes were written.
    ///
    /// If it's ready to accept bytes, a non-zero amount of bytes is written from the beginning of
    /// `buf`, and the amount is returned. Implementations must not return `Ok(0)` unless `buf`
    /// is empty: a writer that cannot accept more bytes reports an error.
    fn write(&mut self, buf: &[u8]) -> (r: Result<usize, Self::Error>)
        ensures
            r matches Ok(n) ==> n <= buf@.len() && (buf@.len() > 0 ==> n > 0),
            (*old(self)).models_sink() ==> (*final(self)).models_sink() && match r {
                Ok(n) => (*final(self)).sink() == (*old(self)).sink() + buf@.take(n as int),
                Err(_) => (*final(self)).sink() == (*old(self)).sink(),
            },
    ;

    /// Flush this output stream, blocking until all intermediately buffered contents reach their destination.
    /// What a writer has recorded stays recorded.
    fn flush(&mut self) -> (r: Result<(), Self::Error>)
        ensures
            (*old(self)).models_sink() ==> (*final(self)).models_sink() && (*final(self)).sink()
                == (*old(self)).sink(),
    ;

    /// Write an entire buffer into this writer.
    ///
    /// This function calls `write()` in a loop until exactly `buf.len()` bytes have
    /// been written, blocking if needed.
    /// When the writer fails, its error is returned at once: the bytes before the failed write
    /// stay written.
    fn write_all(&mut self, buf: &[u8]) -> (r: Result<(), Self::Error>)
        ensures
            (*old(self)).models_sink() ==> (*final(self)).models_sink() && match r {
                Ok(()) => (*final(self)).sink() == (*old(self)).sink() + buf@,
                Err(_) => {
                    let done = (*final(self)).sink().len() - (*old(self)).sink().len();
                    &&& 0 <= done < buf@.len()
                    &&& (*final(self)).sink() == (*old(self)).sink() + buf@.take(done)
                },
            },
        default_ensures
            buf@.len() == 0 ==> r is Ok,
    {
        let len = buf.len();
        let mut written: usize = 0;
        let ghost s0 = (*self).sink();
        let ghost m = (*self).models_sink();
        while written < len
            invariant
                len == buf@.len(),
                written <= len,
                m == (*old(self)).models_sink(),
                s0 == (*old(self)).sink(),
                m ==> self.models_sink() && self.sink() == s0 + buf@.take(written as int),
            decreases len - written,
        {
            let rest = vstd::slice::slice_subrange(buf, written, len);
            match self.write(rest) {
                Ok(n) => {
                    proof {
                        if m {
                            assert(buf@.take(written as int) + rest@.take(n as int) =~= buf@.take(
                                written + n,
                            ));
                        }
                    }
                    written = written + n;
                },
                Err(e) => return Err(e),
            }
        }
        proof {
            if m {
                assert(buf@.take(written as int) =~= buf@);
            }
        }
        Ok(())
    }
}

/// Formatted output for every [`Write`]r, so that `write!` and `writeln!` apply to them.
pub trait WriteFmt: Write {
    /// Write a formatted string into this writer, returning any error encountered.
    ///
    /// This function calls `write_all()` for each piece of formatted text. An error of the
    /// writer is reported as `WriteFmtError::Other`; a failure of the formatting itself, with
    /// no error from the writer, as `WriteFmtError::FmtError`.
    fn write_fmt(&mut self, fmt: core::fmt::Arguments<'_>) -> (r: Result<(), WriteFmtError<Self::Error>>)
        ensures
            (*old(self)).models_sink() ==> (*final(self)).models_sink() && (*old(self)).sink().len()
                <= (*final(self)).sink().len() && (*final(self)).sink().take(
                (*old(self)).sink().len() as int,
            ) == (*old(self)).sink(),
    ;
}

impl<W: Write + ?Sized> WriteFmt for W {
    fn write_fmt(&mut self, fmt: core::fmt::Arguments<'_>) -> (r: Result<(), WriteFmtError<Self::Error>>) {
        write_formatted(self, fmt)
    }
}

/// Writes the rendering of `fmt` into `w` through a [`FmtShim`] and reports the outcome as
/// [`Write::write_fmt`] does.
/// What reaches a writer that records what it is sent is appended to its record.
pub fn write_formatted<W: Write + ?Sized>(w: &mut W, fmt: core::fmt::Arguments<'_>) -> (r: Result<(), WriteFmtError<W::Error>>)
    ensures
        (*old(w)).models_sink() ==> (*final(w)).models_sink() && (*old(w)).sink().len() <= (*final(w)).sink().len()
            && (*final(w)).sink().take((*old(w)).sink().len() as int) == (*old(w)).sink(),
{
    let (formatted, recorded) = format_into(w, fmt);
    write_fmt_outcome(formatted, recorded)
}

#[verifier::external_type_specification]
pub struct ExFmtError(core::fmt::Error);

#[verifier::external_type_specification]
#[verifier::external_body]
pub struct ExFmtArguments<'a>(core::fmt::Arguments<'a>);

/// A `core::fmt::Write` sink over a [`Write`]r that keeps the first I/O error it meets,
/// instead of discarding it as `core::fmt::Error` would.
pub struct FmtShim<'a, T: Write + ?Sized> {
    inner: &'a mut T,
    error: Result<(), T::Error>,
}

impl<'a, T: Write + ?Sized> FmtShim<'a, T> {
    /// The first I/O error met so far, if any.
    pub closed spec fn saved_error(&self) -> Result<(), T::Error> {
        self.error
    }

    /// Whether the writer that the text goes to records what it is sent.
    pub closed spec fn writer_models_sink(&self) -> bool {
        (*self.inner).models_sink()
    }

    /// What the writer that the text goes to has recorded.
    pub closed spec fn writer_sink(&self) -> Seq<u8> {
        (*self.inner).sink()
    }
}

impl<'a, T: Write + ?Sized> core::fmt::Write for FmtShim<'a, T> {
    /// Writes all the bytes of `s`; when the writer fails, its error is kept and the formatting
    /// is told to stop.
    fn write_str(&mut self, s: &str) -> (r: core::fmt::Result)
        ensures
            r is Ok ==> final(self).saved_error() == old(self).saved_error(),
            r is Err ==> final(self).saved_error() is Err,
            old(self).writer_models_sink() ==> final(self).writer_models_sink() && match r {
                Ok(()) => final(self).writer_sink() == old(self).writer_sink() + s.spec_bytes(),
                Err(_) => {
                    let done = final(self).writer_sink().len() - old(self).writer_sink().len();
                    &&& 0 <= done < s.spec_bytes().len()
                    &&& final(self).writer_sink() == old(self).writer_sink() + s.spec_bytes().take(done)
                },
            },
    {
        match self.inner.write_all(s.as_bytes()) {
            Ok(()) => Ok(()),
            Err(e) => {
                self.error = Err(e);
                Err(core::fmt::Error)
            },
        }
    }
}

/// Runs `core::fmt::write` on a fresh [`FmtShim`] over `w` (one with no error recorded), which
/// renders `args` and hands the text, piece by piece, to the shim's `write_str`, and hands back
/// its result together with the I/O error that the shim recorded last.
///
/// Claimed: the writer is reached only through the shim's `write_str`, whose verified contract
/// appends to what a writer that records what it is sent has recorded, so that record only
/// grows. Not claimed: which text reaches the writer, and the two results, which depend on the
/// formatting implementations that `args` refers to (one may also ignore a failed write).
#[verifier::external_body]
fn format_into<T: Write + ?Sized>(w: &mut T, args: core::fmt::Arguments<'_>) -> (r: (Result<(), core::fmt::Error>, Result<(), T::Error>))
    ensures
        (*old(w)).models_sink() ==> (*final(w)).models_sink() && (*old(w)).sink().len() <= (*final(w)).sink().len()
            && (*final(w)).sink().take((*old(w)).sink().len() as int) == (*old(w)).sink(),
{
    let mut out = FmtShim { inner: w, error: Ok(()) };
    let formatted = core::fmt::write(&mut out, args);
    (formatted, out.error)
}

/// What [`Write::write_fmt`] returns, given the outcome of the formatting and the I/O error
/// that the writer reported, if any: success when the formatting succeeded, else the I/O error
/// when there was one, else `WriteFmtError::FmtError`.
pub fn write_fmt_outcome<E>(formatted: Result<(), core::fmt::Error>, io_error: Result<(), E>) -> (r: Result<(), WriteFmtError<E>>)
    ensures
        formatted is Ok ==> r is Ok,
        formatted is Err ==> match io_error {
            Err(e) => r == Err::<(), WriteFmtError<E>>(WriteFmtError::Other(e)),
            Ok(()) => r == Err::<(), WriteFmtError<E>>(WriteFmtError::FmtError),
        },
{
    match formatted {
        Ok(()) => Ok(()),
        Err(_) => match io_error {
            Err(e) => Err(WriteFmtError::Other(e)),
            Ok(()) => Err(WriteFmtError::FmtError),
        },
    }
}

/// Blocking seek within streams.
///
/// The `Seek` trait provides a cursor which can be moved within a stream of
/// bytes.
pub trait Seek: ErrorType {
    /// Whether [`Seek::seek_position`] and [`Seek::seek_end`] describe this stream. An object
    /// that makes no such promise keeps the default.
    open spec fn models_seek(&self) -> bool {
        false
    }

    /// The current position, when modeled.
    open spec fn seek_position(&self) -> int {
        0
    }

    /// The position of the end of the stream, which `SeekFrom::End` counts from, when modeled.
    open spec fn seek_end(&self) -> int {
        0
    }

    /// The largest position that a seek reaches without failing, when modeled: every target from
    /// `0` to it is reached.
    open spec fn seek_limit(&self) -> int {
        0
    }

    /// Whether, for a stream that models seeking and reading, the bytes that reading delivers
    /// after a seek are those of [`Seek::seek_contents`] from the new position on. A stream that
    /// makes no such promise keeps the default.
    open spec fn models_seek_stream(&self) -> bool {
        false
    }

    /// The whole contents of the stream, when modeled.
    open spec fn seek_contents(&self) -> Seq<u8> {
        Seq::empty()
    }

    /// Seek to an offset, in bytes, in a stream.
    /// A seek beyond the end of a stream is allowed, but behavior is defined
    /// by the implementation.
    ///
    /// If the seek operation completed successfully,
    /// this method returns the new position from the start of the stream.
    /// A failed seek leaves the position where it was.
    fn seek(&mut self, pos: SeekFrom) -> (r: Result<u64, Self::Error>)
        ensures
            (*old(self)).models_seek() ==> {
                &&& (*final(self)).models_seek()
                &&& (*final(self)).seek_end() == (*old(self)).seek_end()
                &&& match r {
                    Ok(p) => {
                        &&& p == seek_from_target(pos, (*old(self)).seek_position(), (*old(self)).seek_end())
                        &&& (*final(self)).seek_position() == p
                    },
                    Err(_) => (*final(self)).seek_position() == (*old(self)).seek_position(),
                }
                &&& (*final(self)).seek_limit() == (*old(self)).seek_limit()
                &&& 0 <= seek_from_target(pos, (*old(self)).seek_position(), (*old(self)).seek_end())
                    <= (*old(self)).seek_limit() ==> r is Ok
            },
            (*old(self)).models_seek_stream() ==> {
                &&& (*final(self)).models_seek_stream()
                &&& (*final(self)).seek_contents() == (*old(self)).seek_contents()
                &&& (*final(self)).models_stream()
                &&& (*final(self)).stream() == stream_from(
                    (*final(self)).seek_contents(),
                    (*final(self)).seek_position(),
                )
            },
    ;

    /// Rewind to the beginning of a stream.
    ///
    /// This is a convenience method, equivalent to `seek(SeekFrom::Start(0))`.
    fn rewind(&mut self) -> (r: Result<(), Self::Error>)
        ensures
            (*old(self)).models_seek() ==> {
                &&& (*final(self)).models_seek()
                &&& (*final(self)).seek_end() == (*old(self)).seek_end()
                &&& (*final(self)).seek_position() == if r is Ok {
                    0
                } else {
                    (*old(self)).seek_position()
                }
            },
    {
        self.seek(SeekFrom::Start(0))?;
        Ok(())
    }

    /// Returns the current seek position from the start of the stream.
    ///
    /// This is equivalent to `self.seek(SeekFrom::Current(0))`.
    fn stream_position(&mut self) -> (r: Result<u64, Self::Error>)
        ensures
            (*old(self)).models_seek() ==> {
                &&& (*final(self)).models_seek()
                &&& (*final(self)).seek_end() == (*old(self)).seek_end()
                &&& (*final(self)).seek_position() == (*old(self)).seek_position()
                &&& (r matches Ok(p) ==> p == (*old(self)).seek_position())
            },
    {
        self.seek(SeekFrom::Current(0))
    }

    /// Seeks relative to the current position.
    ///
    /// This is equivalent to `self.seek(SeekFrom::Current(offset))` but
    /// doesn't return the new position.
    fn seek_relative(&mut self, offset: i64) -> (r: Result<(), Self::Error>)
        ensures
            (*old(self)).models_seek() ==> {
                &&& (*final(self)).models_seek()
                &&& (*final(self)).seek_end() == (*old(self)).seek_end()
                &&& (*final(self)).seek_position() == if r is Ok {
                    (*old(self)).seek_position() + offset
                } else {
                    (*old(self)).seek_position()
                }
            },
    {
        self.seek(SeekFrom::Current(offset))?;
        Ok(())
    }
}

/// Get whether a reader is ready.
pub trait ReadReady: Read {
    /// Get whether the reader is ready for immediately reading.
    ///
    /// If this returns `true`, it's guaranteed that the next call to [`Read::read`] or [`BufRead::fill_buf`] will not block.
    fn read_ready(&mut self) -> (r: Result<bool, Self::Error>);
}

/// Get whether a writer is ready.
pub trait WriteReady: Write {
    /// Get whether the writer is ready for immediately writing.
    ///
    /// If this returns `true`, it's guaranteed that the next call to [`Write::write`] will not block.
    fn write_ready(&mut self) -> (r: Result<bool, Self::Error>);
}


impl<T: ?Sized + Read> Read for &mut T {
    fn read(&mut self, buf: &mut [u8]) -> (r: Result<usize, Self::Error>) {
        T::read(self, buf)
    }

    fn read_exact(&mut self, buf: &mut [u8]) -> (r: Result<(), ReadExactError<Self::Error>>) {
        T::read_exact(self, buf)
    }
}

impl<T: ?Sized + Write> Write for &mut T {
    fn write(&mut self, buf: &[u8]) -> (r: Result<usize, Self::Error>) {
        T::write(self, buf)
    }

    fn flush(&mut self) -> (r: Result<(), Self::Error>) {
        T::flush(self)
    }

    fn write_all(&mut self, buf: &[u8]) -> (r: Result<(), Self::Error>) {
        T::write_all(self, buf)
    }
}

impl<T: ?Sized + Seek> Seek for &mut T {
    open spec fn seek_limit(&self) -> int {
        (**self).seek_limit()
    }

    open spec fn models_seek_stream(&self) -> bool {
        (**self).models_seek_stream()
    }

    open spec fn seek_contents(&self) -> Seq<u8> {
        (**self).seek_contents()
    }

    open spec fn models_seek(&self) -> bool {
        (**self).models_seek()
    }

    open spec fn seek_position(&self) -> int {
        (**self).seek_position()
    }

    open spec fn seek_end(&self) -> int {
        (**self).seek_end()
    }

    fn seek(&mut self, pos: SeekFrom) -> (r: Result<u64, Self::Error>) {
        T::seek(self, pos)
    }

    fn rewind(&mut self) -> (r: Result<(), Self::Error>) {
        T::rewind(self)
    }

    fn stream_position(&mut self) -> (r: Result<u64, Self::Error>) {
        T::stream_position(self)
    }

    fn seek_relative(&mut self, offset: i64) -> (r: Result<(), Self::Error>) {
        T::seek_relative(self, offset)
    }
}

impl<T: ?Sized + ReadReady> ReadReady for &mut T {
    fn read_ready(&mut self) -> (r: Result<bool, Self::Error>) {
        T::read_ready(self)
    }
}

impl<T: ?Sized + WriteReady> WriteReady for &mut T {
    fn write_ready(&mut self) -> (r: Result<bool, Self::Error>) {
        T::write_ready(self)
    }
}

impl<T: ?Sized + ErrorType> ErrorType for Box<T> {
    type Error = T::Error;

    open spec fn models_stream(&self) -> bool {
        (**self).models_stream()
    }

    open spec fn stream(&self) -> Seq<u8> {
        (**self).stream()
    }

    open spec fn reads_fully(&self) -> bool {
        (**self).reads_fully()
    }

    open spec fn models_sink(&self) -> bool {
        (**self).models_sink()
    }

    open spec fn sink(&self) -> Seq<u8> {
        (**self).sink()
    }
}

impl<T: ?Sized + Read> Read for Box<T> {
    fn read(&mut self, buf: &mut [u8]) -> (r: Result<usize, Self::Error>) {
        T::read(self, buf)
    }

    fn read_exact(&mut self, buf: &mut [u8]) -> (r: Result<(), ReadExactError<Self::Error>>) {
        T::read_exact(self, buf)
    }
}

impl<T: ?Sized + Write> Write for Box<T> {
    fn write(&mut self, buf: &[u8]) -> (r: Result<usize, Self::Error>) {
        T::write(self, buf)
    }

    fn write_all(&mut self, buf: &[u8]) -> (r: Result<(), Self::Error>) {
        T::write_all(self, buf)
    }

    fn flush(&mut self) -> (r: Result<(), Self::Error>) {
        T::flush(self)
    }
}

impl<T: ?Sized + Seek> Seek for Box<T> {
    open spec fn seek_limit(&self) -> int {
        (**self).seek_limit()
    }

    open spec fn models_seek_stream(&self) -> bool {
        (**self).models_seek_stream()
    }

    open spec fn seek_contents(&self) -> Seq<u8> {
        (**self).seek_contents()
    }

    open spec fn models_seek(&self) -> bool {
        (**self).models_seek()
    }

    open spec fn seek_position(&self) -> int {
        (**self).seek_position()
    }

    open spec fn seek_end(&self) -> int {
        (**self).seek_end()
    }

    fn seek(&mut self, pos: SeekFrom) -> (r: Result<u64, Self::Error>) {
        T::seek(self, pos)
    }

    fn rewind(&mut self) -> (r: Result<(), Self::Error>) {
        T::rewind(self)
    }

    fn stream_position(&mut self) -> (r: Result<u64, Self::Error>) {
        T::stream_position(self)
    }

    fn seek_relative(&mut self, offset: i64) -> (r: Result<(), Self::Error>) {
        T::seek_relative(self, offset)
    }
}

impl<T: ?Sized + ReadReady> ReadReady for Box<T> {
    fn read_ready(&mut self) -> (r: Result<bool, Self::Error>) {
        T::read_ready(self)
    }
}

impl<T: ?Sized + WriteReady> WriteReady for Box<T> {
    fn write_ready(&mut self) -> (r: Result<bool, Self::Error>) {
        T::write_ready(self)
    }
}

} // verus!
