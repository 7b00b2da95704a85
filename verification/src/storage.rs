//! Storage traits: a byte-addressed model of an on- or off-board storage device.
use vstd::prelude::*;

verus! {

/// The bytes of `old` with the bytes of `data` written at `offset`.
pub open spec fn overwrite(old: Seq<u8>, offset: int, data: Seq<u8>) -> Seq<u8> {
    Seq::new(
        old.len(),
        |k: int|
            if offset <= k < offset + data.len() {
                data[k - offset]
            } else {
                old[k]
            },
    )
}

/// A storage that was overwritten with `data` at `offset` reads back `data` there, keeps its
/// size, and keeps every other byte it held.
pub proof fn lemma_overwrite_read_back(old: Seq<u8>, offset: int, data: Seq<u8>)
    requires
        0 <= offset,
        offset + data.len() <= old.len(),
    ensures
        overwrite(old, offset, data).len() == old.len(),
        overwrite(old, offset, data).subrange(offset, offset + data.len()) == data,
        forall|k: int|
            0 <= k < old.len() && !(offset <= k < offset + data.len()) ==> #[trigger] overwrite(
                old,
                offset,
                data,
            )[k] == old[k],
{
    assert(overwrite(old, offset, data).subrange(offset, offset + data.len()) =~= data);
}

/// Transparent read only storage trait.
pub trait ReadStorage {
    /// An enumeration of storage errors.
    type Error;

    /// Whether this storage answers reads from [`ReadStorage::storage_contents`]. A storage that
    /// forwards to a device whose bytes it does not model makes no such promise.
    open spec fn models_contents(&self) -> bool {
        false
    }

    /// The bytes held by the storage peripheral.
    open spec fn storage_contents(&self) -> Seq<u8> {
        Seq::empty()
    }

    /// Read a slice of data from the storage peripheral, starting the read
    /// operation at the given address offset, and reading `bytes.len()` bytes.
    fn read(&mut self, offset: u32, bytes: &mut [u8]) -> (r: Result<(), Self::Error>)
        ensures
            final(bytes)@.len() == old(bytes)@.len(),
            final(self).models_contents() == old(self).models_contents(),
            old(self).models_contents() ==> {
                &&& final(self).storage_contents() == old(self).storage_contents()
                &&& r is Ok ==> offset + old(bytes)@.len() <= old(self).storage_contents().len()
                    && final(bytes)@ == old(self).storage_contents().subrange(
                    offset as int,
                    offset + old(bytes)@.len(),
                )
            },
    ;

    /// Whether [`ReadStorage::capacity_of`] describes what [`ReadStorage::capacity`] reports. A
    /// storage that makes no such promise keeps the default.
    open spec fn models_capacity(&self) -> bool {
        false
    }

    /// The number of bytes that [`ReadStorage::capacity`] reports, when modeled.
    open spec fn capacity_of(&self) -> usize {
        0
    }

    /// The capacity of the storage peripheral in bytes.
    fn capacity(&self) -> (c: usize)
        ensures
            self.models_capacity() ==> c == self.capacity_of(),
            self.models_contents() ==> c == self.storage_contents().len(),
    ;
}

/// Transparent read/write storage trait.
pub trait Storage: ReadStorage {
    /// Whether, for a storage that models its contents, a write that succeeds within the
    /// contents leaves `bytes` at the offset and the rest as it was. A storage that makes no
    /// such promise keeps the default.
    open spec fn models_writes(&self) -> bool {
        false
    }

    /// Write a slice of data to the storage peripheral, starting the write
    /// operation at the given address offset (between 0 and `self.capacity()`).
    fn write(&mut self, offset: u32, bytes: &[u8]) -> (r: Result<(), Self::Error>)
        ensures
            final(self).models_contents() == old(self).models_contents(),
            old(self).models_contents() ==> final(self).storage_contents().len()
                == old(self).storage_contents().len(),
            old(self).models_contents() && old(self).models_writes() && r is Ok && offset
                + bytes@.len() <= old(self).storage_contents().len() ==> final(self).storage_contents()
                == overwrite(old(self).storage_contents(), offset as int, bytes@),
    ;
}

/// A contiguous memory region.
pub trait Region {
    /// Whether [`Region::spec_start`] and [`Region::spec_end`] describe this region. A region
    /// that makes no such promise keeps the default.
    open spec fn models_region(&self) -> bool {
        false
    }

    /// The first address of the region, when modeled.
    open spec fn spec_start(&self) -> u32 {
        0
    }

    /// The address just past the region, when modeled.
    open spec fn spec_end(&self) -> u32 {
        0
    }

    /// Start address of the region.
    fn start(&self) -> (r: u32)
        ensures
            self.models_region() ==> r == self.spec_start(),
    ;

    /// End address of the region (exclusive).
    fn end(&self) -> (r: u32)
        ensures
            self.models_region() ==> r == self.spec_end(),
    ;

    /// Check if an address is contained within the region.
    fn contains(&self, address: u32) -> (b: bool)
        ensures
            self.models_region() ==> b == (self.spec_start() <= address && address < self.spec_end()),
    {
        let s = self.start();
        let e = self.end();
        (address >= s) && (address < e)
    }
}

} // verus!
