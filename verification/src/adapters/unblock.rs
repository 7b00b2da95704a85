//! Adapters from this crate's blocking I/O traits to asynchronous ones, which run each
//! blocking operation on a thread pool. The thread pool and the asynchronous operations belong
//! to the application layer; this module holds the adapters and the bookkeeping of a read.
use crate::io::{ErrorType, Read, Write};
use crate::slice_io::copy_prefix;
use crate::storage::overwrite;
use std::sync::{Arc, Mutex};
use vstd::prelude::*;

verus! {

#[verifier::external_type_specification]
#[verifier::external_body]
#[verifier::reject_recursive_types(T)]
pub struct ExMutex<T: ?Sized>(std::sync::Mutex<T>);

/// Another pointer to the same guarded port (`<Arc<_> as Clone>::clone`): the clone stands for
/// the same mutex.
#[verifier::external_body]
fn share<T>(port: &Arc<Mutex<T>>) -> (r: Arc<Mutex<T>>)
    ensures
        r == *port,
{
    port.clone()
}

/// A mutex guarding `port` (`std::sync::Mutex::new`). The mutex is opaque here, so nothing is
/// claimed of it.
#[verifier::external_body]
fn guarded<T>(port: T) -> Mutex<T> {
    Mutex::new(port)
}

/// Adapter from blocking reads and writes to asynchronous ones, sharing one port between its
/// reading and its writing half.
#[verifier::reject_recursive_types(T)]
pub struct Unblock<T: Send + Sync> {
    read: UnblockRead<T>,
    write: UnblockWrite<T>,
}

impl<T: Send + Sync> Unblock<T> {
    /// The reading half.
    pub closed spec fn spec_read(&self) -> UnblockRead<T> {
        self.read
    }

    /// The writing half.
    pub closed spec fn spec_write(&self) -> UnblockWrite<T> {
        self.write
    }
}

impl<T: Send + Sync + 'static> Unblock<T> {
    /// Create a new adapter, whose two halves share the one port.
    pub fn new(port: T) -> (r: Self)
        ensures
            r.spec_read().spec_port() == r.spec_write().spec_port(),
    {
        let inner = Arc::new(guarded(port));
        Self { read: UnblockRead { inner: share(&inner) }, write: UnblockWrite { inner } }
    }
}

impl<T: Send + Sync> Unblock<T> {
    /// The reading half.
    pub fn read_half(&mut self) -> (r: &mut UnblockRead<T>)
        ensures
            *r == old(self).spec_read(),
            final(self).spec_read() == *final(r),
            final(self).spec_write() == old(self).spec_write(),
    {
        &mut self.read
    }

    /// The writing half.
    pub fn write_half(&mut self) -> (r: &mut UnblockWrite<T>)
        ensures
            *r == old(self).spec_write(),
            final(self).spec_write() == *final(r),
            final(self).spec_read() == old(self).spec_read(),
    {
        &mut self.write
    }
}

impl<T: Read + Write + Send + Sync> ErrorType for Unblock<T> {
    type Error = T::Error;
}

/// Use this if you have a port that only implements [`crate::io::Read`]. Otherwise, use
/// [`Unblock`].
#[verifier::reject_recursive_types(T)]
pub struct UnblockRead<T: Send + Sync> {
    inner: Arc<Mutex<T>>,
}

impl<T: Send + Sync + 'static> UnblockRead<T> {
    /// Create a new adapter.
    pub fn new(port: T) -> (r: Self) {
        Self { inner: Arc::new(guarded(port)) }
    }
}

impl<T: Send + Sync> UnblockRead<T> {
    /// The shared, guarded port.
    pub closed spec fn spec_port(&self) -> Arc<Mutex<T>> {
        self.inner
    }

    /// The shared, guarded port.
    pub fn port(&self) -> (r: &Arc<Mutex<T>>)
        ensures
            *r == self.spec_port(),
    {
        &self.inner
    }
}

impl<T: Read + Send + Sync> ErrorType for UnblockRead<T> {
    type Error = T::Error;
}

/// Use this if you have a port that only implements [`crate::io::Write`]. Otherwise, use
/// [`Unblock`].
#[verifier::reject_recursive_types(T)]
pub struct UnblockWrite<T: Send + Sync> {
    inner: Arc<Mutex<T>>,
}

impl<T: Send + Sync + 'static> UnblockWrite<T> {
    /// Create a new adapter.
    pub fn new(port: T) -> (r: Self) {
        Self { inner: Arc::new(guarded(port)) }
    }
}

impl<T: Send + Sync> UnblockWrite<T> {
    /// The shared, guarded port.
    pub closed spec fn spec_port(&self) -> Arc<Mutex<T>> {
        self.inner
    }

    /// The shared, guarded port.
    pub fn port(&self) -> (r: &Arc<Mutex<T>>)
        ensures
            *r == self.spec_port(),
    {
        &self.inner
    }
}

impl<T: Write + Send + Sync> ErrorType for UnblockWrite<T> {
    type Error = T::Error;
}

/// The blocking read that runs on the thread pool: one read of `port` into a fresh buffer of
/// `max_len` bytes, whose bytes read are handed back. For a port that models its stream, they
/// are the next bytes of the stream, and they are consumed.
pub fn read_into_scratch<T: Read + ?Sized>(port: &mut T, max_len: usize) -> (r: Result<Vec<u8>, T::Error>)
    ensures
        r matches Ok(v) ==> v@.len() <= max_len,
        (*old(port)).models_stream() ==> (*final(port)).models_stream() && match r {
            Ok(v) => {
                &&& v@ == (*old(port)).stream().take(v@.len() as int)
                &&& (*final(port)).stream() == (*old(port)).stream().skip(v@.len() as int)
                &&& max_len > 0 && v@.len() == 0 ==> (*old(port)).stream().len() == 0
            },
            Err(_) => (*final(port)).stream() == (*old(port)).stream(),
        },
{
    let mut scratch: Vec<u8> = vec![0u8; max_len];
    match port.read(scratch.as_mut_slice()) {
        Ok(count) => {
            let ghost filled = scratch@;
            scratch.truncate(count);
            proof {
                assert(scratch@ =~= filled.take(count as int));
            }
            Ok(scratch)
        },
        Err(e) => Err(e),
    }
}

/// Hands the bytes that a blocking read on the thread pool produced to the caller's buffer:
/// they go to its beginning, the rest of the buffer is left as it was, and their number is
/// returned.
pub fn deliver_read(buf: &mut [u8], data: &[u8]) -> (n: usize)
    requires
        data@.len() <= old(buf)@.len(),
    ensures
        n == data@.len(),
        final(buf)@ == overwrite(old(buf)@, 0, data@),
{
    copy_prefix(buf, data, data.len());
    assert(data@.take(data@.len() as int) =~= data@);
    data.len()
}

} // verus!
