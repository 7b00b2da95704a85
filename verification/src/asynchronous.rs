//! The decisions of the asynchronous "read exactly" and "write all" operations. Polling the
//! reader or writer is done by the application layer; after each completed poll it hands the
//! outcome to these functions and does what they answer.
use vstd::prelude::*;

verus! {

/// What an exact read does after a poll of the reader completed.
#[derive(Debug, Copy, Clone, PartialEq, Eq, Structural)]
pub enum ReadExactStep<E> {
    /// Read again into the buffer from this position on.
    Continue(usize),
    /// The buffer is full; the operation ends with this many bytes read.
    Done(usize),
    /// The reader delivered nothing before the buffer was full: the operation ends with an
    /// end-of-file error.
    Eof,
    /// The reader failed: the operation ends with its error.
    Failed(E),
}

/// Where an exact read into a buffer of `len` bytes stands before it polls the reader: `None`
/// while the buffer still has room from `position` on (poll the reader for that part), or
/// `Some(position)` when it is full and the operation ends with that many bytes.
pub fn read_exact_pending(position: usize, len: usize) -> (r: Option<usize>)
    ensures
        position < len ==> r is None,
        position >= len ==> r == Some(position),
{
    if position < len {
        None
    } else {
        Some(position)
    }
}

/// The decision after a poll of the reader, for a buffer of `len` bytes that had room from
/// `position` on, completed with `outcome`: an error of the reader ends the operation with that
/// error; no bytes means end of file; otherwise the position moves past the bytes delivered,
/// and the operation ends, with the new position, once it reaches the end of the buffer.
pub fn read_exact_step<E>(position: usize, len: usize, outcome: Result<usize, E>) -> (r: ReadExactStep<E>)
    requires
        position < len,
        outcome matches Ok(n) ==> position + n <= usize::MAX,
    ensures
        match outcome {
            Err(e) => r == ReadExactStep::<E>::Failed(e),
            Ok(n) => {
                &&& n == 0 ==> r == ReadExactStep::<E>::Eof
                &&& n > 0 && position + n < len ==> r == ReadExactStep::<E>::Continue((position + n) as usize)
                &&& n > 0 && position + n >= len ==> r == ReadExactStep::<E>::Done((position + n) as usize)
            },
        },
{
    let n = match outcome {
        Ok(n) => n,
        Err(e) => return ReadExactStep::Failed(e),
    };
    let next = position + n;
    if n == 0 {
        ReadExactStep::Eof
    } else if next < len {
        ReadExactStep::Continue(next)
    } else {
        ReadExactStep::Done(next)
    }
}

/// What a "write all" does after a poll of the writer completed.
#[derive(Debug, Copy, Clone, PartialEq, Eq, Structural)]
pub enum WriteAllStep<E> {
    /// Write again, from this offset of the bytes on.
    Continue(usize),
    /// Every byte was written; the operation succeeds.
    Done,
    /// The writer accepted nothing while bytes were left: the operation ends with a
    /// write-zero error.
    WriteZero,
    /// The writer failed: the operation ends with its error.
    Failed(E),
}

/// The decision after a poll of the writer, handed the bytes from `offset` on out of `len`
/// bytes in all (while some were left), completed with `outcome`: an error of the writer ends
/// the operation with that error; nothing accepted means a write-zero error; otherwise the
/// offset moves past the bytes accepted, and the operation succeeds once every byte is written.
pub fn write_all_step<E>(offset: usize, len: usize, outcome: Result<usize, E>) -> (r: WriteAllStep<E>)
    requires
        offset < len,
        outcome matches Ok(n) ==> n <= len - offset,
    ensures
        match outcome {
            Err(e) => r == WriteAllStep::<E>::Failed(e),
            Ok(n) => {
                &&& n == 0 ==> r == WriteAllStep::<E>::WriteZero
                &&& n > 0 && offset + n < len ==> r == WriteAllStep::<E>::Continue((offset + n) as usize)
                &&& n > 0 && offset + n == len ==> r == WriteAllStep::<E>::Done
            },
        },
{
    let n = match outcome {
        Ok(n) => n,
        Err(e) => return WriteAllStep::Failed(e),
    };
    let next = offset + n;
    if n == 0 {
        WriteAllStep::WriteZero
    } else if next < len {
        WriteAllStep::Continue(next)
    } else {
        WriteAllStep::Done
    }
}

/// A pin that is not connected to anything: reading it always gives the value it was made with,
/// and setting it does nothing.
#[derive(Clone, Copy, Debug)]
pub struct NoConnect(bool);

impl NoConnect {
    /// The value the pin was made with.
    pub closed spec fn spec_value(&self) -> bool {
        self.0
    }

    /// Create a new unconnected pin.
    pub fn new(value: bool) -> (r: Self)
        ensures
            r.spec_value() == value,
    {
        NoConnect(value)
    }

    /// The value that reading the pin gives.
    pub fn value(&self) -> (r: bool)
        ensures
            r == self.spec_value(),
    {
        self.0
    }
}

} // verus!
