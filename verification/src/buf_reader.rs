//! A reader that adds a fixed-size buffer in front of any other reader.
use vstd::prelude::*;
use crate::io::{BufRead, ErrorType, Read};
use crate::storage::overwrite;

verus! {

/// The [BufReader] adds buffering to any reader.
///
/// This [BufReader] allocates its own internal buffer of size `N`; the first `filled` bytes of
/// the buffer are the bytes read ahead from the inner reader and not yet consumed.
pub struct BufReader<const N: usize, R> {
    buff: [u8; N],
    pos: usize,
    inner: R,
}

impl<const N: usize, R> BufReader<N, R> {
    /// The whole internal buffer.
    pub closed spec fn spec_buffer(&self) -> Seq<u8> {
        self.buff@
    }

    /// How many bytes at the front of the internal buffer are read ahead and not yet consumed.
    pub closed spec fn spec_filled(&self) -> usize {
        self.pos
    }

    /// The underlying reader.
    pub closed spec fn spec_inner(&self) -> R {
        self.inner
    }

    /// The bytes read ahead and not yet consumed.
    pub open spec fn buffered(&self) -> Seq<u8> {
        self.spec_buffer().take(
            if self.spec_filled() <= N {
                self.spec_filled() as int
            } else {
                N as int
            },
        )
    }

    /// Gets a reference to the underlying reader.
    pub fn get_ref(&self) -> (r: &R)
        ensures
            *r == self.spec_inner(),
    {
        &self.inner
    }

    /// Gets a mutable reference to the underlying reader.
    pub fn get_mut(&mut self) -> (r: &mut R)
        ensures
            *r == old(self).spec_inner(),
            final(self).spec_inner() == *final(r),
            final(self).spec_buffer() == old(self).spec_buffer(),
            final(self).spec_filled() == old(self).spec_filled(),
    {
        &mut self.inner
    }

    /// Returns a reference to the internally buffered data: the bytes read ahead and not yet
    /// consumed.
    ///
    /// Unlike `fill_buf` this will not attempt to fill the buffer.
    pub fn buffer(&self) -> (r: &[u8])
        ensures
            r@ == self.buffered(),
    {
        let end = if self.pos <= N {
            self.pos
        } else {
            N
        };
        vstd::slice::slice_subrange(self.buff.as_slice(), 0, end)
    }

    /// Returns the number of bytes the internal buffer can hold at once.
    pub fn capacity(&self) -> (r: usize)
        ensures
            r == N,
    {
        N
    }

    /// Unwraps this [BufReader<N,R>], returning the underlying reader.
    pub fn into_inner(self) -> (r: R)
        ensures
            r == self.spec_inner(),
    {
        self.inner
    }
}

impl<const N: usize, R: Read> BufReader<N, R> {
    /// Creates a new [BufReader<N,R>] with a buffer capacity of `N`.
    pub fn new(reader: R) -> (r: Self)
        ensures
            r.spec_inner() == reader,
            r.spec_filled() == 0,
            r.spec_buffer() == Seq::new(N as nat, |i: int| 0u8),
    {
        let r = Self { buff: [0u8;N], pos: 0, inner: reader };
        assert(r.buff@ =~= Seq::new(N as nat, |i: int| 0u8));
        r
    }
}

impl<const N: usize, R: Read> ErrorType for BufReader<N, R> {
    type Error = R::Error;

    /// The bytes a read delivers: those read ahead, then those the inner reader will deliver.
    open spec fn models_stream(&self) -> bool {
        N > 0 && self.spec_inner().models_stream()
    }

    open spec fn stream(&self) -> Seq<u8> {
        self.buffered() + self.spec_inner().stream()
    }
}

impl<const N: usize, R: Read> BufRead for BufReader<N, R> {
    /// At most the read-ahead bytes can be consumed.
    open spec fn can_consume(&self, amt: usize) -> bool {
        amt <= self.spec_filled() <= N
    }

    /// Removes `amt` bytes from the front of the read-ahead bytes, moving the rest to the front
    /// of the buffer.
    fn consume(&mut self, amt: usize)
        ensures
            final(self).buffered() == old(self).buffered().skip(amt as int),
            final(self).spec_filled() == old(self).spec_filled() - amt,
            final(self).spec_buffer() == overwrite(
                old(self).spec_buffer(),
                0,
                old(self).spec_buffer().subrange(amt as int, old(self).spec_filled() as int),
            ),
            final(self).spec_inner() == old(self).spec_inner(),
    {
        // remove amt bytes from the front of the buffer
        // imagine the buffer is [0,1,2,3,4]
        // consume(2)
        // the buffer is now [2,3,4]
        assert(self.can_consume(amt));
        let n = self.pos - amt;
        let mut i: usize = 0;
        while i < n
            invariant
                n == old(self).pos - amt,
                amt + n <= N,
                self.buff@.len() == N,
                self.pos == old(self).pos,
                self.inner == old(self).inner,
                0 <= i <= n,
                forall|k: int|
                    0 <= k < N ==> #[trigger] self.buff@[k] == (if k < i {
                        old(self).buff@[amt + k]
                    } else {
                        old(self).buff@[k]
                    }),
            decreases n - i,
        {
            let b = self.buff[amt + i];
            self.buff[i] = b;
            i = i + 1;
        }
        self.pos = n;
        proof {
            assert(self.buff@ =~= overwrite(
                old(self).buff@,
                0,
                old(self).buff@.subrange(amt as int, old(self).pos as int),
            ));
            assert(self.buffered() =~= old(self).buffered().skip(amt as int));
        }
    }

    /// Returns the read-ahead bytes. Only when there are none is the inner reader read, once,
    /// into the whole buffer.
    fn fill_buf(&mut self) -> (r: Result<&[u8], Self::Error>)
        ensures
            final(self).spec_filled() <= N,
            0 < old(self).spec_filled() <= N ==> r is Ok && *final(self) == *old(self),
            old(self).spec_filled() == 0 ==> (r is Err ==> final(self).spec_filled() == 0),
            r matches Ok(s) ==> s@ == final(self).buffered() && s@.len() <= N,
            (*old(self)).models_stream() ==> {
                &&& (*final(self)).models_stream()
                &&& (*final(self)).stream() == old(self).stream()
                &&& (r matches Ok(s) ==> (s@.len() == 0 ==> old(self).stream().len() == 0))
            },
            old(self).spec_filled() == 0 && old(self).spec_inner().models_stream()
                && old(self).spec_inner().reads_fully() ==> (r matches Ok(s) && s@
                == old(self).spec_inner().stream().take(
                if N < old(self).spec_inner().stream().len() {
                    N as int
                } else {
                    old(self).spec_inner().stream().len() as int
                },
            )),
    {
        if self.pos > 0 {
            // Bytes are already buffered: hand them out without reading.
            if self.pos > N {
                self.pos = N;
            }
            return Ok(self.buffer());
        }
        let ghost before = self.inner.stream();
        let whole: &mut [u8] = &mut self.buff;
        let read_count = match self.inner.read(whole) {
            Ok(n) => n,
            Err(e) => {
                proof {
                    assert(old(self).buffered() =~= Seq::<u8>::empty());
                    assert(self.buffered() =~= Seq::<u8>::empty());
                    assert(old(self).stream() =~= before);
                    assert(self.stream() =~= self.inner.stream());
                }
                return Err(e);
            },
        };
        self.pos = read_count;
        proof {
            if old(self).spec_inner().models_stream() {
                assert(self.buffered() =~= before.take(read_count as int));
            }
            if old(self).models_stream() {
                assert(old(self).buffered() =~= Seq::<u8>::empty());
                assert(old(self).stream() =~= before);
                assert(self.buffered() =~= before.take(read_count as int));
                assert(self.stream() =~= before);
            }
        }
        Ok(vstd::slice::slice_subrange(self.buff.as_slice(), 0, self.pos))
    }
}

impl<const N: usize, R: Read> Read for BufReader<N, R> {
    /// Copies read-ahead bytes into `buf` (filling the buffer from the inner reader first when
    /// nothing is read ahead) and consumes them. Read-ahead bytes are handed out without reading
    /// the inner reader; when there are some and `buf` has room, at least one comes out.
    fn read(&mut self, buf: &mut [u8]) -> (r: Result<usize, Self::Error>)
        ensures
            final(self).spec_filled() <= N,
            0 < old(self).spec_filled() <= N ==> (r matches Ok(n) && {
                &&& n <= old(self).spec_filled()
                &&& final(buf)@.take(n as int) == old(self).buffered().take(n as int)
                &&& final(self).buffered() == old(self).buffered().skip(n as int)
                &&& final(self).spec_inner() == old(self).spec_inner()
                &&& old(buf)@.len() > 0 ==> n > 0
            }),
    {
        let rem = self.fill_buf()?;
        let ghost ahead = rem@;
        let mut rem_reader: &[u8] = rem;
        let nread = match rem_reader.read(buf) {
            Ok(n) => n,
            Err(_) => 0,
        };
        proof {
            assert(buf@.take(nread as int) =~= ahead.take(nread as int));
        }
        let ghost mid = *self;
        self.consume(nread);
        proof {
            if old(self).models_stream() {
                assert(ahead.take(nread as int) =~= mid.stream().take(nread as int));
                assert(self.stream() =~= mid.stream().skip(nread as int));
            }
        }
        Ok(nread)
    }
}

} // verus!
