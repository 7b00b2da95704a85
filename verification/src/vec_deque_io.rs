//! A double-ended queue of bytes as a reader (consuming from the front) and a writer
//! (appending at the back).
use vstd::prelude::*;
use std::collections::VecDeque;
use crate::io::{BufRead, ErrorType, Read, ReadExactError, Write};
use crate::slice_io::copy_prefix;
use crate::storage::overwrite;

verus! {

/// `VecDeque::as_slices`: the deque's contents as two slices. The standard library documents
/// that the two slices hold, in order, the contents of the deque; where the contents are split
/// between them depends on how the ring buffer has wrapped, which is left unsaid here.
#[verifier::external_body]
fn as_slices(v: &VecDeque<u8>) -> (r: (&[u8], &[u8]))
    ensures
        r.0@ + r.1@ == v@,
{
    v.as_slices()
}

/// Removes the first `n` bytes of the deque.
fn drain_front(v: &mut VecDeque<u8>, n: usize)
    requires
        n <= old(v)@.len(),
    ensures
        final(v)@ == old(v)@.skip(n as int),
{
    let mut i: usize = 0;
    while i < n
        invariant
            n <= old(v)@.len(),
            0 <= i <= n,
            v@ == old(v)@.skip(i as int),
        decreases n - i,
    {
        let _ = v.pop_front();
        assert(v@ =~= old(v)@.skip(i + 1));
        i = i + 1;
    }
}

impl ErrorType for VecDeque<u8> {
    type Error = core::convert::Infallible;

    /// A read delivers the bytes of the deque, front first.
    open spec fn models_stream(&self) -> bool {
        true
    }

    open spec fn stream(&self) -> Seq<u8> {
        self@
    }

    /// A write appends to the back of the deque.
    open spec fn models_sink(&self) -> bool {
        true
    }

    open spec fn sink(&self) -> Seq<u8> {
        self@
    }
}

/// Read is implemented for `VecDeque<u8>` by consuming bytes from the front of the `VecDeque`.
impl Read for VecDeque<u8> {
    /// Fill `buf` with the contents of the "front" slice as returned by `as_slices`. If the
    /// contained byte slices of the `VecDeque` are discontiguous, multiple calls to `read` will
    /// be needed to read the entire content. A deque that holds bytes gives at least one to a
    /// buffer that has room.
    fn read(&mut self, buf: &mut [u8]) -> (r: Result<usize, Self::Error>)
        ensures
            r matches Ok(n) && n <= old(self)@.len() && n <= old(buf)@.len() && final(buf)@
                == overwrite(old(buf)@, 0, old(self)@.take(n as int)) && final(self)@ == old(
                self,
            )@.skip(n as int),
            old(buf)@.len() > 0 && old(self)@.len() > 0 ==> (r matches Ok(n) && n > 0),
    {
        let (front, back) = as_slices(self);
        let ghost contents = self@;
        // The front slice holds the first bytes; it can only be empty when the back one holds
        // them all.
        let first = if front.is_empty() {
            back
        } else {
            front
        };
        proof {
            assert(first@ =~= contents.take(first@.len() as int));
        }
        let mut reader: &[u8] = first;
        let n = match reader.read(buf) {
            Ok(n) => n,
            Err(_) => 0,
        };
        proof {
            assert(first@.take(n as int) =~= contents.take(n as int));
        }
        drain_front(self, n);
        Ok(n)
    }

    fn read_exact(&mut self, buf: &mut [u8]) -> (r: Result<(), ReadExactError<Self::Error>>)
        ensures
            old(buf)@.len() <= old(self)@.len() ==> r is Ok && final(buf)@ == old(self)@.take(
                old(buf)@.len() as int,
            ) && final(self)@ == old(self)@.skip(old(buf)@.len() as int),
            old(buf)@.len() > old(self)@.len() ==> (r matches Err(ReadExactError::UnexpectedEof))
                && final(self)@.len() == 0,
    {
        let (front, back) = as_slices(self);
        let ghost contents = self@;
        let want = buf.len();
        // Use only the front buffer if it is big enough to fill `buf`, else use
        // the back buffer too.
        if want <= front.len() {
            copy_prefix(buf, front, want);
            proof {
                assert(buf@ =~= contents.take(want as int));
            }
        } else if want - front.len() <= back.len() {
            let flen = front.len();
            let (buf_front, buf_back) = buf.split_at_mut(flen);
            copy_prefix(buf_front, front, flen);
            copy_prefix(buf_back, back, want - flen);
            proof {
                assert(buf@ =~= contents.take(want as int));
            }
        } else {
            self.clear();
            return Err(ReadExactError::UnexpectedEof);
        }
        drain_front(self, want);
        Ok(())
    }
}

/// BufRead is implemented for `VecDeque<u8>` by reading bytes from the front of the `VecDeque`.
impl BufRead for VecDeque<u8> {
    /// At most the bytes in the deque can be consumed.
    open spec fn can_consume(&self, amt: usize) -> bool {
        amt <= self@.len()
    }

    /// Returns the contents of the "front" slice as returned by `as_slices`. If the contained
    /// byte slices of the `VecDeque` are discontiguous, multiple calls to `fill_buf` will be
    /// needed to read the entire content.
    fn fill_buf(&mut self) -> (r: Result<&[u8], Self::Error>)
        ensures
            r matches Ok(s) && s@ == old(self)@.take(s@.len() as int) && s@.len() <= old(
                self,
            )@.len(),
            final(self)@ == old(self)@,
    {
        let (front, _) = as_slices(self);
        proof {
            assert(front@ =~= self@.take(front@.len() as int));
        }
        Ok(front)
    }

    fn consume(&mut self, amt: usize)
        ensures
            final(self)@ == old(self)@.skip(amt as int),
    {
        assert(self.can_consume(amt));
        drain_front(self, amt);
    }
}

/// Appends the bytes of `buf` to the back of the deque.
fn extend(v: &mut VecDeque<u8>, buf: &[u8])
    ensures
        final(v)@ == old(v)@ + buf@,
{
    let n = buf.len();
    let mut i: usize = 0;
    while i < n
        invariant
            n == buf@.len(),
            0 <= i <= n,
            v@ == old(v)@ + buf@.take(i as int),
        decreases n - i,
    {
        v.push_back(buf[i]);
        assert(buf@.take(i + 1) =~= buf@.take(i as int).push(buf@[i as int]));
        i = i + 1;
    }
    assert(buf@.take(n as int) =~= buf@);
}

/// Write is implemented for `VecDeque<u8>` by appending to the `VecDeque`, growing it as needed.
impl Write for VecDeque<u8> {
    fn write(&mut self, buf: &[u8]) -> (r: Result<usize, Self::Error>)
        ensures
            r matches Ok(n) && n == buf@.len(),
            final(self)@ == old(self)@ + buf@,
    {
        extend(self, buf);
        Ok(buf.len())
    }

    fn write_all(&mut self, buf: &[u8]) -> (r: Result<(), Self::Error>)
        ensures
            r is Ok,
            final(self)@ == old(self)@ + buf@,
    {
        extend(self, buf);
        Ok(())
    }

    fn flush(&mut self) -> (r: Result<(), Self::Error>)
        ensures
            r is Ok,
            final(self)@ == old(self)@,
    {
        Ok(())
    }
}

/// A deque gives bytes back in the order they were written: after appending `written` to the
/// contents `queued`, reading `queued.len()` bytes yields `queued` and leaves exactly `written`.
pub proof fn lemma_deque_first_in_first_out(queued: Seq<u8>, written: Seq<u8>)
    ensures
        (queued + written).take(queued.len() as int) == queued,
        (queued + written).skip(queued.len() as int) == written,
{
    assert((queued + written).take(queued.len() as int) =~= queued);
    assert((queued + written).skip(queued.len() as int) =~= written);
}

} // verus!
