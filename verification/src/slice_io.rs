//! Byte slices as readers and writers: reading consumes the front of a shared slice, writing
//! fills the front of a mutable slice.
use vstd::prelude::*;
use crate::io::{BufRead, ErrorType, Read, ReadExactError, SliceWriteError, Write, WriteReady};
use crate::storage::overwrite;

verus! {

/// Copies the first `amt` bytes of `src` into `dst`.
pub(crate) fn copy_prefix(dst: &mut [u8], src: &[u8], amt: usize)
    requires
        amt <= old(dst)@.len(),
        amt <= src@.len(),
    ensures
        final(dst)@ == overwrite(old(dst)@, 0, src@.take(amt as int)),
{
    let mut i: usize = 0;
    while i < amt
        invariant
            amt <= dst@.len(),
            amt <= src@.len(),
            dst@.len() == old(dst)@.len(),
            0 <= i <= amt,
            forall|k: int|
                0 <= k < dst@.len() ==> #[trigger] dst@[k] == (if k < i {
                    src@[k]
                } else {
                    old(dst)@[k]
                }),
        decreases amt - i,
    {
        dst[i] = src[i];
        i = i + 1;
    }
    assert(dst@ =~= overwrite(old(dst)@, 0, src@.take(amt as int)));
}

impl<'a> ErrorType for &'a [u8] {
    type Error = core::convert::Infallible;

    /// A read delivers the bytes of the slice, in order.
    open spec fn models_stream(&self) -> bool {
        true
    }

    open spec fn stream(&self) -> Seq<u8> {
        (*self)@
    }

    /// A read never fails and copies as many bytes as fit.
    open spec fn reads_fully(&self) -> bool {
        true
    }
}

/// Read is implemented for `&[u8]` by copying from the slice.
///
/// Note that reading updates the slice to point to the yet unread part.
/// The slice will be empty when EOF is reached.
impl<'a> Read for &'a [u8] {
    fn read(&mut self, buf: &mut [u8]) -> (r: Result<usize, Self::Error>)
        ensures
            ({
                let src = (*old(self))@;
                let amt = if old(buf)@.len() < src.len() {
                    old(buf)@.len()
                } else {
                    src.len()
                };
                &&& r matches Ok(n) && n == amt
                &&& final(buf)@ == overwrite(old(buf)@, 0, src.take(amt as int))
                &&& (*final(self))@ == src.skip(amt as int)
            }),
    {
        let amt = if buf.len() < self.len() {
            buf.len()
        } else {
            self.len()
        };
        let (a, b) = self.split_at(amt);
        // First check if the amount of bytes we want to read is small:
        // a single byte is copied directly.
        if amt == 1 {
            buf[0] = a[0];
            proof {
                assert(buf@ =~= overwrite(old(buf)@, 0, a@.take(1)));
            }
        } else {
            copy_prefix(buf, a, amt);
        }
        *self = b;
        proof {
            assert(old(self).stream() == (*old(self))@);
            assert(buf@.take(amt as int) =~= (*old(self))@.take(amt as int));
            assert(b@ =~= (*old(self))@.skip(amt as int));
        }
        Ok(amt)
    }

    fn read_exact(&mut self, buf: &mut [u8]) -> (r: Result<(), ReadExactError<Self::Error>>)
        ensures
            (*old(self))@.len() < old(buf)@.len() ==> (r matches Err(
                ReadExactError::UnexpectedEof,
            )) && *final(self) == *old(self) && final(buf)@ == old(buf)@,
            (*old(self))@.len() >= old(buf)@.len() ==> r is Ok && final(buf)@ == (*old(
                self,
            ))@.take(old(buf)@.len() as int) && (*final(self))@ == (*old(self))@.skip(
                old(buf)@.len() as int,
            ),
    {
        if self.len() < buf.len() {
            return Err(ReadExactError::UnexpectedEof);
        }
        let ghost src = (*self)@;
        let _ = self.read(buf);
        proof {
            assert(buf@ =~= src.take(old(buf)@.len() as int));
        }
        Ok(())
    }
}

impl<'a> BufRead for &'a [u8] {
    /// At most the bytes that are left can be consumed.
    open spec fn can_consume(&self, amt: usize) -> bool {
        amt <= (**self)@.len()
    }

    fn fill_buf(&mut self) -> (r: Result<&[u8], Self::Error>)
        ensures
            r matches Ok(s) && s@ == (*old(self))@,
            *final(self) == *old(self),
    {
        Ok(*self)
    }

    fn consume(&mut self, amt: usize)
        ensures
            (*final(self))@ == (*old(self))@.skip(amt as int),
    {
        *self = vstd::slice::slice_subrange(*self, amt, self.len());
    }
}

impl<'a> ErrorType for &'a mut [u8] {
    type Error = SliceWriteError;
}

/// Write is implemented for `&mut [u8]` by copying into the slice, overwriting
/// its data.
///
/// Note that writing updates the slice to point to the yet unwritten part.
/// The slice will be empty when it has been completely overwritten.
///
/// If the number of bytes to be written exceeds the size of the slice, write operations will
/// return short writes: ultimately, a `SliceWriteError::Full`.
impl<'a> Write for &'a mut [u8] {
    fn write(&mut self, buf: &[u8]) -> (r: Result<usize, Self::Error>)
        ensures
            ({
                let room = (*old(self))@.len();
                let amt = if buf@.len() < room {
                    buf@.len()
                } else {
                    room
                };
                &&& buf@.len() > 0 && amt == 0 ==> r == Err::<usize, SliceWriteError>(
                    SliceWriteError::Full,
                )
                &&& !(buf@.len() > 0 && amt == 0) ==> r == Ok::<usize, SliceWriteError>(
                    amt as usize,
                ) && (*final(self))@.len() == room - amt
                    && (*final(*old(self)))@ == buf@.take(amt as int) + (*final(*final(self)))@
            }),
    {
        let amt = if buf.len() < self.len() {
            buf.len()
        } else {
            self.len()
        };
        if !buf.is_empty() && amt == 0 {
            return Err(SliceWriteError::Full);
        }
        let mut taken: &mut [u8] = &mut [];
        core::mem::swap(self, &mut taken);
        let (a, b) = taken.split_at_mut(amt);
        copy_prefix(a, buf, amt);
        *self = b;
        Ok(amt)
    }

    fn flush(&mut self) -> (r: Result<(), Self::Error>)
        ensures
            r is Ok,
    {
        Ok(())
    }
}

impl<'a> WriteReady for &'a mut [u8] {
    fn write_ready(&mut self) -> (r: Result<bool, Self::Error>)
        ensures
            r matches Ok(b) && b,
    {
        Ok(true)
    }
}

} // verus!
