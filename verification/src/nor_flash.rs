//! NOR flash: a storage medium whose bits can only be cleared by writes and set by erases.
use vstd::prelude::*;
use crate::storage::{overwrite, ReadStorage, Region, Storage};

verus! {

/// NOR flash errors.
///
/// NOR flash implementations must use an error type implementing this trait. This permits generic
/// code to extract a generic error kind.
pub trait NorFlashError: core::fmt::Debug {
    /// Whether [`NorFlashError::kind_of`] describes this error's kind. An error type that makes
    /// no such promise keeps the default.
    open spec fn models_kind(&self) -> bool {
        false
    }

    /// The generic kind that this error falls under, when modeled.
    open spec fn kind_of(&self) -> NorFlashErrorKind {
        NorFlashErrorKind::Other
    }

    /// Convert a specific NOR flash error into a generic error kind.
    fn kind(&self) -> (k: NorFlashErrorKind)
        ensures
            self.models_kind() ==> k == self.kind_of(),
    ;
}

impl NorFlashError for core::convert::Infallible {
    /// `Infallible` has no values, so this is never called.
    fn kind(&self) -> (k: NorFlashErrorKind) {
        NorFlashErrorKind::Other
    }
}

/// A trait that NorFlash implementations can use to share an error type.
pub trait ErrorType {
    /// Errors returned by this NOR flash.
    type Error: NorFlashError;
}

/// NOR flash error kinds.
///
/// NOR flash implementations must map their error to those generic error kinds through the
/// [`NorFlashError`] trait.
#[derive(Debug, Copy, Clone, PartialEq, Eq, Structural, Ord, PartialOrd, Hash)]
#[non_exhaustive]
pub enum NorFlashErrorKind {
    /// The arguments are not properly aligned.
    NotAligned,
    /// The arguments are out of bounds.
    OutOfBounds,
    /// Error specific to the implementation.
    Other,
}

impl NorFlashError for NorFlashErrorKind {
    /// An error kind is its own kind.
    open spec fn models_kind(&self) -> bool {
        true
    }

    open spec fn kind_of(&self) -> NorFlashErrorKind {
        *self
    }

    fn kind(&self) -> (k: NorFlashErrorKind) {
        *self
    }
}

impl NorFlashErrorKind {
    /// A human readable description of the error kind.
    pub fn message(&self) -> (m: &'static str)
        ensures
            *self matches NorFlashErrorKind::NotAligned ==> m@ == "Arguments are not properly aligned"@,
            *self matches NorFlashErrorKind::OutOfBounds ==> m@ == "Arguments are out of bounds"@,
            *self matches NorFlashErrorKind::Other ==> m@ == "An implementation specific error occurred"@,
    {
        match self {
            NorFlashErrorKind::NotAligned => "Arguments are not properly aligned",
            NorFlashErrorKind::OutOfBounds => "Arguments are out of bounds",
            NorFlashErrorKind::Other => "An implementation specific error occurred",
        }
    }
}

/// `x` is a multiple of `align`; every number is a multiple of nothing but `0` is a multiple of `0`.
pub open spec fn is_multiple(x: int, align: int) -> bool {
    if align == 0 {
        x == 0
    } else {
        x % align == 0
    }
}

/// The verdict on accessing `length` bytes at `offset` of a flash of `capacity` bytes whose
/// accesses must be aligned to `align` bytes.
pub open spec fn slice_verdict(capacity: int, align: int, offset: int, length: int) -> Result<
    (),
    NorFlashErrorKind,
> {
    if length > capacity || offset > capacity - length {
        Err(NorFlashErrorKind::OutOfBounds)
    } else if !is_multiple(offset, align) || !is_multiple(length, align) {
        Err(NorFlashErrorKind::NotAligned)
    } else {
        Ok(())
    }
}

/// The verdict on erasing `[from, to)` of a flash of `capacity` bytes with erase pages of `erase`
/// bytes.
pub open spec fn erase_verdict(capacity: int, erase: int, from: int, to: int) -> Result<
    (),
    NorFlashErrorKind,
> {
    if from > to || to > capacity {
        Err(NorFlashErrorKind::OutOfBounds)
    } else if !is_multiple(from, erase) || !is_multiple(to, erase) {
        Err(NorFlashErrorKind::NotAligned)
    } else {
        Ok(())
    }
}

/// The bytes of `old` with `[from, to)` erased to all ones.
pub open spec fn erased(old: Seq<u8>, from: int, to: int) -> Seq<u8> {
    Seq::new(old.len(), |k: int| if from <= k < to { 0xffu8 } else { old[k] })
}

/// The bytes of `old` after programming `data` at `offset`: a NOR write can only clear bits, so
/// every written byte becomes the bitwise AND of what was there and what was written.
pub open spec fn programmed(old: Seq<u8>, offset: int, data: Seq<u8>) -> Seq<u8> {
    Seq::new(
        old.len(),
        |k: int|
            if offset <= k < offset + data.len() {
                old[k] & data[k - offset]
            } else {
                old[k]
            },
    )
}

/// The bytes of `old` after a write of `data` at `offset` may have become `new`: a byte that was
/// erased (all ones) holds what was written, and the bytes outside the write are unchanged. What a
/// byte that was not erased holds afterwards is left open.
pub open spec fn programmed_erased(old: Seq<u8>, new: Seq<u8>, offset: int, data: Seq<u8>) -> bool {
    &&& new.len() == old.len()
    &&& forall|k: int|
        0 <= k < old.len() ==> if offset <= k < offset + data.len() {
            old[k] == 0xffu8 ==> #[trigger] new[k] == data[k - offset]
        } else {
            new[k] == old[k]
        }
}

/// Read only NOR flash trait.
pub trait ReadNorFlash: ErrorType {
    /// The minumum number of bytes the storage peripheral can read
    const READ_SIZE: usize;

    /// Whether [`ReadNorFlash::flash_contents`] and [`ReadNorFlash::erase_count`] describe this
    /// flash. A flash that makes no such promise keeps the default.
    open spec fn models_flash(&self) -> bool {
        false
    }

    /// The bytes held by the flash, when modeled.
    open spec fn flash_contents(&self) -> Seq<u8> {
        Seq::empty()
    }

    /// How many erase operations the flash has been given, when modeled.
    open spec fn erase_count(&self) -> nat {
        0
    }

    /// Whether, for a modeled flash, every read, erase and write whose arguments are in bounds
    /// and aligned succeeds. A flash that makes no such promise keeps the default.
    open spec fn reliable(&self) -> bool {
        false
    }

    /// Read a slice of data from the storage peripheral, starting the read
    /// operation at the given address offset, and reading `bytes.len()` bytes.
    ///
    /// # Errors
    ///
    /// Returns an error if the arguments are not aligned or out of bounds. The implementation
    /// can use the [`check_read`] helper function.
    fn read(&mut self, offset: u32, bytes: &mut [u8]) -> (r: Result<(), Self::Error>)
        ensures
            final(bytes)@.len() == old(bytes)@.len(),
            final(self).models_flash() == old(self).models_flash(),
            final(self).reliable() == old(self).reliable(),
            old(self).models_flash() && old(self).reliable() && slice_verdict(
                old(self).flash_contents().len() as int,
                Self::READ_SIZE as int,
                offset as int,
                old(bytes)@.len() as int,
            ) is Ok ==> r is Ok,
            old(self).models_flash() ==> {
                &&& final(self).flash_contents() == old(self).flash_contents()
                &&& final(self).erase_count() == old(self).erase_count()
                &&& slice_verdict(
                    old(self).flash_contents().len() as int,
                    Self::READ_SIZE as int,
                    offset as int,
                    old(bytes)@.len() as int,
                ) is Err ==> r is Err
                &&& r is Ok ==> offset + old(bytes)@.len() <= old(self).flash_contents().len()
                    && final(bytes)@ == old(self).flash_contents().subrange(
                    offset as int,
                    offset + old(bytes)@.len(),
                )
            },
    ;

    /// The capacity of the peripheral in bytes.
    fn capacity(&self) -> (c: usize)
        ensures
            self.models_flash() ==> c == self.flash_contents().len(),
    ;
}

/// Return whether a read operation is within bounds.
pub fn check_read<T: ReadNorFlash>(flash: &T, offset: u32, length: usize) -> (r: Result<
    (),
    NorFlashErrorKind,
>)
    ensures
        flash.models_flash() ==> r == slice_verdict(
            flash.flash_contents().len() as int,
            T::READ_SIZE as int,
            offset as int,
            length as int,
        ),
        flash.models_flash() ==> {
            let cap = flash.flash_contents().len();
            &&& length > cap || offset + length > cap ==> r == Err::<(), NorFlashErrorKind>(NorFlashErrorKind::OutOfBounds)
            &&& offset + length <= cap && T::READ_SIZE > 0 && (offset as int % T::READ_SIZE as int != 0 || length as int
                % T::READ_SIZE as int != 0) ==> r == Err::<(), NorFlashErrorKind>(NorFlashErrorKind::NotAligned)
            &&& offset + length <= cap && T::READ_SIZE > 0 && offset as int % T::READ_SIZE as int == 0 && length as int
                % T::READ_SIZE as int == 0 ==> r is Ok
            &&& offset + length <= cap && T::READ_SIZE == 0 ==> (r is Ok <==> offset == 0 && length == 0)
        },
{
    check_slice(flash, T::READ_SIZE, offset, length)
}

/// NOR flash trait.
pub trait NorFlash: ReadNorFlash {
    /// The minumum number of bytes the storage peripheral can write
    const WRITE_SIZE: usize;

    /// The minumum number of bytes the storage peripheral can erase
    const ERASE_SIZE: usize;

    /// Whether, for a modeled flash, a write leaves every written byte as the bitwise AND of what
    /// it held and what was written, erased or not (what a [`MultiwriteNorFlash`] does). A flash
    /// that makes no such promise keeps the default.
    open spec fn programs_by_and() -> bool {
        false
    }

    /// Erase the given storage range, clearing all data within `[from..to]`.
    /// The given range will contain all 1s afterwards.
    ///
    /// If power is lost during erase, contents of the page are undefined.
    ///
    /// # Errors
    ///
    /// Returns an error if the arguments are not aligned or out of bounds (the case where `to >
    /// from` is considered out of bounds). The implementation can use the [`check_erase`]
    /// helper function.
    fn erase(&mut self, from: u32, to: u32) -> (r: Result<(), Self::Error>)
        ensures
            final(self).models_flash() == old(self).models_flash(),
            final(self).reliable() == old(self).reliable(),
            old(self).models_flash() && old(self).reliable() && erase_verdict(
                old(self).flash_contents().len() as int,
                Self::ERASE_SIZE as int,
                from as int,
                to as int,
            ) is Ok ==> r is Ok,
            old(self).models_flash() ==> {
                &&& final(self).erase_count() == old(self).erase_count() + 1
                &&& final(self).flash_contents().len() == old(self).flash_contents().len()
                &&& erase_verdict(
                    old(self).flash_contents().len() as int,
                    Self::ERASE_SIZE as int,
                    from as int,
                    to as int,
                ) is Err ==> r is Err
                &&& r is Ok ==> from <= to <= old(self).flash_contents().len()
                    && final(self).flash_contents() == erased(old(self).flash_contents(), from as int, to as int)
            },
    ;

    /// If power is lost during write, the contents of the written words are undefined,
    /// but the rest of the page is guaranteed to be unchanged.
    /// It is not allowed to write to the same word twice: a written word holds what was written
    /// where it had been erased.
    ///
    /// # Errors
    ///
    /// Returns an error if the arguments are not aligned or out of bounds. The implementation
    /// can use the [`check_write`] helper function.
    fn write(&mut self, offset: u32, bytes: &[u8]) -> (r: Result<(), Self::Error>)
        ensures
            final(self).models_flash() == old(self).models_flash(),
            final(self).reliable() == old(self).reliable(),
            old(self).models_flash() && old(self).reliable() && slice_verdict(
                old(self).flash_contents().len() as int,
                Self::WRITE_SIZE as int,
                offset as int,
                bytes@.len() as int,
            ) is Ok ==> r is Ok,
            old(self).models_flash() ==> {
                &&& final(self).erase_count() == old(self).erase_count()
                &&& final(self).flash_contents().len() == old(self).flash_contents().len()
                &&& slice_verdict(
                    old(self).flash_contents().len() as int,
                    Self::WRITE_SIZE as int,
                    offset as int,
                    bytes@.len() as int,
                ) is Err ==> r is Err
                &&& r is Ok ==> offset + bytes@.len() <= old(self).flash_contents().len()
                    && programmed_erased(old(self).flash_contents(), final(self).flash_contents(), offset as int, bytes@)
                &&& r is Ok && Self::programs_by_and() ==> final(self).flash_contents() == programmed(old(self).flash_contents(), offset as int, bytes@)
            },
    ;
}

/// What the erase verdict says: a range that is reversed or runs past the flash is out of
/// bounds; a range in bounds whose start or end is not on an erase page boundary is misaligned;
/// any other range is accepted.
pub proof fn lemma_erase_verdict_meaning(capacity: int, erase: int, from: int, to: int)
    requires
        erase > 0,
    ensures
        from > to || to > capacity ==> erase_verdict(capacity, erase, from, to) == Err::<(), NorFlashErrorKind>(NorFlashErrorKind::OutOfBounds),
        from <= to <= capacity && (from % erase != 0 || to % erase != 0) ==> erase_verdict(capacity, erase, from, to)
            == Err::<(), NorFlashErrorKind>(NorFlashErrorKind::NotAligned),
        from <= to <= capacity && from % erase == 0 && to % erase == 0 ==> erase_verdict(capacity, erase, from, to) is Ok,
{
}

/// What the verdict on a read or write says: `length` bytes at `offset` that run past the flash
/// are out of bounds; in bounds, a start or length that is not a multiple of the alignment is
/// misaligned; anything else is accepted.
pub proof fn lemma_slice_verdict_meaning(capacity: int, align: int, offset: int, length: int)
    requires
        align > 0,
        offset >= 0,
        length >= 0,
    ensures
        length > capacity || offset + length > capacity ==> slice_verdict(capacity, align, offset, length)
            == Err::<(), NorFlashErrorKind>(NorFlashErrorKind::OutOfBounds),
        offset + length <= capacity && (offset % align != 0 || length % align != 0) ==> slice_verdict(capacity, align, offset, length)
            == Err::<(), NorFlashErrorKind>(NorFlashErrorKind::NotAligned),
        offset + length <= capacity && offset % align == 0 && length % align == 0 ==> slice_verdict(capacity, align, offset, length) is Ok,
{
}

/// Return whether an erase operation is aligned and within bounds.
pub fn check_erase<T: NorFlash>(flash: &T, from: u32, to: u32) -> (r: Result<
    (),
    NorFlashErrorKind,
>)
    requires
        from <= to && (flash.models_flash() ==> to <= flash.flash_contents().len()) ==> T::ERASE_SIZE > 0,
    ensures
        flash.models_flash() ==> r == erase_verdict(
            flash.flash_contents().len() as int,
            T::ERASE_SIZE as int,
            from as int,
            to as int,
        ),
        flash.models_flash() ==> {
            let cap = flash.flash_contents().len();
            &&& from > to || to > cap ==> r == Err::<(), NorFlashErrorKind>(NorFlashErrorKind::OutOfBounds)
            &&& from <= to <= cap && (from as int % T::ERASE_SIZE as int != 0 || to as int
                % T::ERASE_SIZE as int != 0) ==> r == Err::<(), NorFlashErrorKind>(NorFlashErrorKind::NotAligned)
            &&& from <= to <= cap && from as int % T::ERASE_SIZE as int == 0 && to as int
                % T::ERASE_SIZE as int == 0 ==> r is Ok
        },
{
    let (from, to) = (from as usize, to as usize);
    if from > to || to > flash.capacity() {
        return Err(NorFlashErrorKind::OutOfBounds);
    }
    if from % T::ERASE_SIZE != 0 || to % T::ERASE_SIZE != 0 {
        return Err(NorFlashErrorKind::NotAligned);
    }
    Ok(())
}

/// Return whether a write operation is aligned and within bounds.
pub fn check_write<T: NorFlash>(flash: &T, offset: u32, length: usize) -> (r: Result<
    (),
    NorFlashErrorKind,
>)
    ensures
        flash.models_flash() ==> r == slice_verdict(
            flash.flash_contents().len() as int,
            T::WRITE_SIZE as int,
            offset as int,
            length as int,
        ),
        flash.models_flash() ==> {
            let cap = flash.flash_contents().len();
            &&& length > cap || offset + length > cap ==> r == Err::<(), NorFlashErrorKind>(NorFlashErrorKind::OutOfBounds)
            &&& offset + length <= cap && T::WRITE_SIZE > 0 && (offset as int % T::WRITE_SIZE as int != 0 || length as int
                % T::WRITE_SIZE as int != 0) ==> r == Err::<(), NorFlashErrorKind>(NorFlashErrorKind::NotAligned)
            &&& offset + length <= cap && T::WRITE_SIZE > 0 && offset as int % T::WRITE_SIZE as int == 0 && length as int
                % T::WRITE_SIZE as int == 0 ==> r is Ok
            &&& offset + length <= cap && T::WRITE_SIZE == 0 ==> (r is Ok <==> offset == 0 && length == 0)
        },
{
    check_slice(flash, T::WRITE_SIZE, offset, length)
}

fn check_slice<T: ReadNorFlash>(flash: &T, align: usize, offset: u32, length: usize) -> (r: Result<
    (),
    NorFlashErrorKind,
>)
    ensures
        flash.models_flash() ==> r == slice_verdict(
            flash.flash_contents().len() as int,
            align as int,
            offset as int,
            length as int,
        ),
        flash.models_flash() ==> {
            let cap = flash.flash_contents().len();
            &&& length > cap || offset + length > cap ==> r == Err::<(), NorFlashErrorKind>(NorFlashErrorKind::OutOfBounds)
            &&& offset + length <= cap && align > 0 && (offset as int % align as int != 0 || length as int
                % align as int != 0) ==> r == Err::<(), NorFlashErrorKind>(NorFlashErrorKind::NotAligned)
            &&& offset + length <= cap && align > 0 && offset as int % align as int == 0 && length as int
                % align as int == 0 ==> r is Ok
            &&& offset + length <= cap && align == 0 ==> (r is Ok <==> offset == 0 && length == 0)
        },
{
    let offset = offset as usize;
    let capacity = flash.capacity();
    if length > capacity || offset > capacity - length {
        return Err(NorFlashErrorKind::OutOfBounds);
    }
    if !offset.is_multiple_of(align) || !length.is_multiple_of(align) {
        return Err(NorFlashErrorKind::NotAligned);
    }
    Ok(())
}

/// Marker trait for NorFlash relaxing the restrictions on `write`.
///
/// Writes to the same word twice are now allowed. The result is the logical AND of the
/// previous data and the written data. That is, it is only possible to change 1 bits to 0 bits.
///
/// If power is lost during write:
/// - Bits that were 1 on flash and are written to 1 are guaranteed to stay as 1
/// - Bits that were 1 on flash and are written to 0 are undefined
/// - Bits that were 0 on flash are guaranteed to stay as 0
/// - Rest of the bits in the page are guaranteed to be unchanged
pub trait MultiwriteNorFlash: NorFlash {

}


impl<T: ErrorType> ErrorType for &mut T {
    type Error = T::Error;
}

impl<T: ReadNorFlash> ReadNorFlash for &mut T {
    const READ_SIZE: usize = T::READ_SIZE;

    open spec fn models_flash(&self) -> bool {
        (**self).models_flash()
    }

    open spec fn flash_contents(&self) -> Seq<u8> {
        (**self).flash_contents()
    }

    open spec fn erase_count(&self) -> nat {
        (**self).erase_count()
    }

    open spec fn reliable(&self) -> bool {
        (**self).reliable()
    }

    fn read(&mut self, offset: u32, bytes: &mut [u8]) -> (r: Result<(), Self::Error>) {
        T::read(self, offset, bytes)
    }

    fn capacity(&self) -> (c: usize) {
        T::capacity(self)
    }
}

impl<T: NorFlash> NorFlash for &mut T {
    const WRITE_SIZE: usize = T::WRITE_SIZE;

    const ERASE_SIZE: usize = T::ERASE_SIZE;

    open spec fn programs_by_and() -> bool {
        T::programs_by_and()
    }

    fn erase(&mut self, from: u32, to: u32) -> (r: Result<(), Self::Error>) {
        T::erase(self, from, to)
    }

    fn write(&mut self, offset: u32, bytes: &[u8]) -> (r: Result<(), Self::Error>) {
        T::write(self, offset, bytes)
    }
}

impl<T: MultiwriteNorFlash> MultiwriteNorFlash for &mut T {

}

/// The bytes of `old` after a read-modify-write storage has written `data` at `offset`, of which
/// only the bytes below `limit` (the end of the last whole erase page) reach the flash.
pub open spec fn rmw_written(old: Seq<u8>, offset: int, data: Seq<u8>, limit: int) -> Seq<u8> {
    Seq::new(
        old.len(),
        |k: int|
            if offset <= k < offset + data.len() && k < limit {
                data[k - offset]
            } else {
                old[k]
            },
    )
}

/// When the last whole erase page ends at or after the end of the data, the read-modify-write
/// result is the data laid over the old bytes.
proof fn lemma_rmw_written_whole(old: Seq<u8>, offset: int, data: Seq<u8>, limit: int)
    requires
        offset + data.len() <= limit,
    ensures
        rmw_written(old, offset, data, limit) == overwrite(old, offset, data),
{
    assert(rmw_written(old, offset, data, limit) =~= overwrite(old, offset, data));
}

/// Whether a read-modify-write storage over `capacity` bytes with erase pages of `erase` bytes
/// and a merge buffer of `merge_len` bytes writes every byte it is given within its capacity:
/// its pages cover the whole flash.
pub open spec fn rmw_writes_whole(erase: int, merge_len: int, capacity: int) -> bool {
    rmw_supported(erase, merge_len, capacity) && capacity % erase == 0
}

/// Erasing a range sets every byte of it to `0xFF` and leaves the rest of the flash as it was.
pub proof fn lemma_erase_sets_ones(old: Seq<u8>, from: int, to: int)
    requires
        0 <= from <= to <= old.len(),
    ensures
        erased(old, from, to).len() == old.len(),
        erased(old, from, to).subrange(from, to) == Seq::new((to - from) as nat, |k: int| 0xffu8),
        forall|k: int|
            0 <= k < old.len() && !(from <= k < to) ==> #[trigger] erased(old, from, to)[k]
                == old[k],
{
    assert(erased(old, from, to).subrange(from, to) =~= Seq::new((to - from) as nat, |k: int| 0xffu8));
}

/// Data programmed into an erased range reads back unchanged: on erased flash, clearing the bits
/// that are clear in `data` leaves exactly `data`.
pub proof fn lemma_program_erased_reads_back(old: Seq<u8>, from: int, to: int, offset: int, data: Seq<u8>)
    requires
        0 <= from <= offset,
        offset + data.len() <= to <= old.len(),
    ensures
        programmed(erased(old, from, to), offset, data).subrange(offset, offset + data.len()) == data,
{
    let after = programmed(erased(old, from, to), offset, data);
    assert forall|k: int| 0 <= k < data.len() implies #[trigger] after.subrange(offset, offset + data.len())[k] == data[k] by {
        lemma_and_ones(data[k]);
    }
    assert(after.subrange(offset, offset + data.len()) =~= data);
}

/// Programming can only clear bits: every byte after a write has no bit set that was clear
/// before it.
pub proof fn lemma_program_only_clears_bits(old: Seq<u8>, offset: int, data: Seq<u8>)
    ensures
        programmed(old, offset, data).len() == old.len(),
        forall|k: int|
            0 <= k < old.len() ==> #[trigger] programmed(old, offset, data)[k] & old[k]
                == programmed(old, offset, data)[k],
{
    assert forall|k: int| 0 <= k < old.len() implies #[trigger] programmed(old, offset, data)[k] & old[k]
        == programmed(old, offset, data)[k] by {
        let a = old[k];
        if offset <= k < offset + data.len() {
            let b = data[k - offset];
            assert((a & b) & a == a & b) by (bit_vector);
        } else {
            assert(a & a == a) by (bit_vector);
        }
    }
}

/// Writing the same data twice leaves the flash as writing it once does.
pub proof fn lemma_program_idempotent(old: Seq<u8>, offset: int, data: Seq<u8>)
    ensures
        programmed(programmed(old, offset, data), offset, data) == programmed(old, offset, data),
{
    let once = programmed(old, offset, data);
    let twice = programmed(once, offset, data);
    assert forall|k: int| 0 <= k < old.len() implies #[trigger] twice[k] == once[k] by {
        if offset <= k < offset + data.len() {
            let a = old[k];
            let b = data[k - offset];
            assert((a & b) & b == a & b) by (bit_vector);
        }
    }
    assert(twice =~= once);
}

/// What a read-modify-write storage writes reads back: below the end of the last whole erase
/// sector, the written range holds exactly `data`, and every byte outside it is kept.
pub proof fn lemma_rmw_write_read_back(old: Seq<u8>, offset: int, data: Seq<u8>, limit: int)
    requires
        0 <= offset,
        offset + data.len() <= limit <= old.len(),
    ensures
        rmw_written(old, offset, data, limit).len() == old.len(),
        rmw_written(old, offset, data, limit).subrange(offset, offset + data.len()) == data,
        forall|k: int|
            0 <= k < old.len() && !(offset <= k < offset + data.len()) ==> #[trigger] rmw_written(
                old,
                offset,
                data,
                limit,
            )[k] == old[k],
{
    assert(rmw_written(old, offset, data, limit).subrange(offset, offset + data.len()) =~= data);
}

/// The part of a write of `len` bytes at `base` that meets the page `[start, end)`: the range of
/// the written bytes that falls into the page (possibly empty when the write ends right at the
/// page's start), and the address where that range begins.
pub open spec fn page_overlap(base: int, len: int, start: int, end: int) -> Option<(int, int, int)> {
    let mem_start = base;
    let mem_end = base + len;
    if mem_start < end && mem_end >= start {
        let addr_start = if mem_start > start { mem_start } else { start };
        let addr_end = if mem_end < end { mem_end } else { end };
        Some((addr_start - base, addr_end - base, addr_start))
    } else {
        None
    }
}

/// The conditions under which the read-modify-write storages do their work: a positive erase
/// size, a merge buffer that holds a page, and a flash whose addresses fit in `u32`.
pub open spec fn rmw_supported(erase: int, merge_len: int, capacity: int) -> bool {
    &&& erase > 0
    &&& merge_len >= erase
    &&& capacity <= u32::MAX
}

proof fn lemma_and_ones(x: u8)
    ensures
        0xffu8 & x == x,
        x & 0xffu8 == x,
{
    assert(0xffu8 & x == x && x & 0xffu8 == x) by (bit_vector);
}

proof fn lemma_and_subset(a: u8, b: u8)
    requires
        a & b == a,
    ensures
        b & a == a,
{
    assert(a & b == a ==> b & a == a) by (bit_vector);
}

struct Page {
    start: u32,
    size: usize,
}

impl Page {
    #[verifier::type_invariant]
    spec fn fits(&self) -> bool {
        self.start + self.size <= u32::MAX
    }

    fn new(index: u32, size: usize) -> (p: Self)
        requires
            index * size + size <= u32::MAX,
        ensures
            p.start == index * size,
            p.size == size,
    {
        Self { start: index * size as u32, size }
    }
}

impl Region for Page {
    open spec fn models_region(&self) -> bool {
        true
    }

    closed spec fn spec_start(&self) -> u32 {
        self.start
    }

    closed spec fn spec_end(&self) -> u32 {
        (self.start + self.size) as u32
    }

    fn start(&self) -> (r: u32) {
        self.start
    }

    fn end(&self) -> (r: u32) {
        proof {
            use_type_invariant(self);
        }
        self.start + self.size as u32
    }
}

/// Where a write of `len` bytes at `base` meets the page `[start, end)`.
fn overlap_in_page(base: u32, len: usize, start: u32, end: u32) -> (r: Option<(usize, usize, u32)>)
    requires
        start <= end,
    ensures
        r matches Some((a, b, addr)) ==> page_overlap(base as int, len as int, start as int, end as int)
            == Some((a as int, b as int, addr as int)),
        r is None ==> page_overlap(base as int, len as int, start as int, end as int) is None,
{
    let mem_start = base as u128;
    let mem_end = base as u128 + len as u128;
    if mem_start < end as u128 && mem_end >= start as u128 {
        let addr_start = if mem_start > start as u128 { mem_start } else { start as u128 };
        let addr_end = if mem_end < end as u128 { mem_end } else { end as u128 };
        Some(((addr_start - mem_start) as usize, (addr_end - mem_start) as usize, addr_start as u32))
    } else {
        None
    }
}

/// Copies `data` into `buf` starting at `at`.
fn overlay(buf: &mut [u8], at: usize, data: &[u8])
    requires
        at + data@.len() <= old(buf)@.len(),
    ensures
        final(buf)@ == overwrite(old(buf)@, at as int, data@),
{
    let n = data.len();
    let blen = buf.len();
    let mut j: usize = 0;
    while j < n
        invariant
            n == data@.len(),
            blen == buf@.len(),
            at + n <= buf@.len(),
            0 <= j <= n,
            buf@.len() == old(buf)@.len(),
            forall|k: int|
                0 <= k < buf@.len() ==> #[trigger] buf@[k] == (if at <= k < at + j {
                    data@[k - at]
                } else {
                    old(buf)@[k]
                }),
        decreases n - j,
    {
        buf[at + j] = data[j];
        j = j + 1;
    }
    assert(buf@ =~= overwrite(old(buf)@, at as int, data@));
}

/// The sizes under which the pages of a read-modify-write storage are whole units of every flash
/// operation: a positive erase size that is a multiple of positive read and write sizes.
pub open spec fn page_ops_aligned(erase: int, read: int, write: int) -> bool {
    &&& erase > 0
    &&& read > 0
    &&& erase % read == 0
    &&& write > 0
    &&& erase % write == 0
}

/// A multiple of `b`, where `b` is a multiple of `c`, is a multiple of `c`.
proof fn lemma_multiple_of_multiple(a: int, b: int, c: int)
    requires
        a >= 0,
        b > 0,
        c > 0,
        a % b == 0,
        b % c == 0,
    ensures
        a % c == 0,
{
    vstd::arithmetic::div_mod::lemma_fundamental_div_mod(a, b);
    vstd::arithmetic::div_mod::lemma_fundamental_div_mod(b, c);
    let k = (b / c) * (a / b);
    assert(a == k * c) by (nonlinear_arith)
        requires
            a == b * (a / b),
            b == c * (b / c),
            k == (b / c) * (a / b),
    ;
    vstd::arithmetic::div_mod::lemma_mod_multiples_basic(k, c);
}

/// Adding a multiple of `b` to a multiple of `b` gives a multiple of `b`.
proof fn lemma_multiple_sum(a: int, d: int, b: int)
    requires
        b > 0,
        a % b == 0,
        d % b == 0,
    ensures
        (a + d) % b == 0,
{
    vstd::arithmetic::div_mod::lemma_fundamental_div_mod(a, b);
    vstd::arithmetic::div_mod::lemma_fundamental_div_mod(d, b);
    let k = a / b + d / b;
    assert(a + d == k * b) by (nonlinear_arith)
        requires
            a == b * (a / b),
            d == b * (d / b),
            k == a / b + d / b,
    ;
    vstd::arithmetic::div_mod::lemma_mod_multiples_basic(k, b);
}

/// Erases the page at `page_start` and programs `page` into it.
fn erase_and_program<S: NorFlash>(storage: &mut S, page_start: u32, page: &[u8]) -> (r: Result<
    (),
    S::Error,
>)
    requires
        page@.len() == S::ERASE_SIZE,
        page_start + S::ERASE_SIZE <= u32::MAX,
    ensures
        (*final(storage)).models_flash() == (*old(storage)).models_flash(),
        (*final(storage)).reliable() == (*old(storage)).reliable(),
        (*old(storage)).models_flash() && (*old(storage)).reliable() && S::ERASE_SIZE > 0
            && S::WRITE_SIZE > 0 && S::ERASE_SIZE % S::WRITE_SIZE == 0
            && page_start as int % S::ERASE_SIZE as int == 0
            && page_start + S::ERASE_SIZE <= (*old(storage)).flash_contents().len() ==> r is Ok,
        (*old(storage)).models_flash() ==> {
            &&& (*final(storage)).flash_contents().len() == (*old(storage)).flash_contents().len()
            &&& r is Ok ==> (*final(storage)).flash_contents() == overwrite(
                (*old(storage)).flash_contents(),
                page_start as int,
                page@,
            )
        },
{
    let end = page_start + S::ERASE_SIZE as u32;
    let ghost c0 = storage.flash_contents();
    proof {
        let e = S::ERASE_SIZE as int;
        let w = S::WRITE_SIZE as int;
        if e > 0 && w > 0 && e % w == 0 && page_start as int % e == 0 {
            vstd::arithmetic::div_mod::lemma_mod_self_0(e);
            lemma_multiple_sum(page_start as int, e, e);
            lemma_multiple_of_multiple(page_start as int, e, w);
        }
    }
    storage.erase(page_start, end)?;
    let ghost c1 = storage.flash_contents();
    storage.write(page_start, page)?;
    proof {
        if (*old(storage)).models_flash() {
            let c2 = storage.flash_contents();
            assert forall|k: int| 0 <= k < c2.len() implies #[trigger] c2[k] == overwrite(
                c0,
                page_start as int,
                page@,
            )[k] by {
                if page_start <= k < page_start + page@.len() {
                    assert(c1[k] == 0xffu8);
                    assert(c2[k] == page@[k - page_start]);
                } else {
                    assert(c2[k] == c1[k]);
                }
            }
            assert(c2 =~= overwrite(c0, page_start as int, page@));
        }
    }
    Ok(())
}

/// Read-modify-write of one erase page: reads the page at `page_start` into the merge buffer,
/// overlays `data` at `offset_into_page`, erases the page and programs the merged page back.
fn rmw_page<S: NorFlash>(
    storage: &mut S,
    merge: &mut [u8],
    page_start: u32,
    offset_into_page: usize,
    data: &[u8],
) -> (r: Result<(), S::Error>)
    requires
        S::ERASE_SIZE <= old(merge)@.len(),
        (*old(storage)).models_flash() ==> page_start + S::ERASE_SIZE <= (*old(storage)).flash_contents().len(),
        page_start + S::ERASE_SIZE <= u32::MAX,
        offset_into_page + data@.len() <= S::ERASE_SIZE,
    ensures
        final(merge)@.len() == old(merge)@.len(),
        (*final(storage)).models_flash() == (*old(storage)).models_flash(),
        (*final(storage)).reliable() == (*old(storage)).reliable(),
        (*old(storage)).models_flash() ==> {
            &&& (*final(storage)).flash_contents().len() == (*old(storage)).flash_contents().len()
            &&& r is Ok ==> (*final(storage)).flash_contents() == overwrite(
                (*old(storage)).flash_contents(),
                page_start + offset_into_page,
                data@,
            )
        },
        (*old(storage)).models_flash() && (*old(storage)).reliable()
            && page_ops_aligned(S::ERASE_SIZE as int, S::READ_SIZE as int, S::WRITE_SIZE as int)
            && page_start as int % S::ERASE_SIZE as int == 0 ==> r is Ok,
{
    let ghost c0 = storage.flash_contents();
    proof {
        if page_ops_aligned(S::ERASE_SIZE as int, S::READ_SIZE as int, S::WRITE_SIZE as int)
            && page_start as int % S::ERASE_SIZE as int == 0 {
            lemma_multiple_of_multiple(page_start as int, S::ERASE_SIZE as int, S::READ_SIZE as int);
        }
    }
    let (page, _rest) = merge.split_at_mut(S::ERASE_SIZE);
    storage.read(page_start, page)?;
    let ghost read_back = page@;
    overlay(page, offset_into_page, data);
    let r = erase_and_program(storage, page_start, page);
    proof {
        if r is Ok && (*old(storage)).models_flash() {
            let c2 = storage.flash_contents();
            assert(read_back =~= c0.subrange(page_start as int, page_start + S::ERASE_SIZE));
            assert(c2 =~= overwrite(c0, page_start + offset_into_page, data@));
        }
    }
    r
}


/// Writing the part of `data` that meets the page `[start, start + size)` extends what reached
/// the flash from below `start` to below `start + size`.
proof fn lemma_rmw_page_step(
    c0: Seq<u8>,
    offset: int,
    data: Seq<u8>,
    start: int,
    size: int,
    cur: Seq<u8>,
    next: Seq<u8>,
)
    requires
        0 <= offset,
        0 <= start,
        0 < size,
        cur == rmw_written(c0, offset, data, start),
        match page_overlap(offset, data.len() as int, start, start + size) {
            Some((a, b, addr)) => next == overwrite(cur, addr, data.subrange(a, b)),
            None => next == cur,
        },
    ensures
        next == rmw_written(c0, offset, data, start + size),
{
    let goal = rmw_written(c0, offset, data, start + size);
    match page_overlap(offset, data.len() as int, start, start + size) {
        Some((a, b, addr)) => {
            assert forall|k: int| 0 <= k < next.len() implies #[trigger] next[k] == goal[k] by {
                if addr <= k < addr + (b - a) {
                    assert(data.subrange(a, b)[k - addr] == data[k - offset]);
                }
            }
        },
        None => {},
    }
    assert(next =~= goal);
}

/// The whole erase pages of a flash end inside it.
proof fn lemma_whole_pages_fit(capacity: int, erase: int)
    requires
        capacity >= 0,
        erase > 0,
    ensures
        (capacity / erase) * erase <= capacity,
{
    vstd::arithmetic::div_mod::lemma_fundamental_div_mod(capacity, erase);
    assert((capacity / erase) * erase <= capacity) by (nonlinear_arith)
        requires
            capacity == erase * (capacity / erase) + capacity % erase,
            capacity % erase >= 0,
    ;
}

/// The last whole erase page ends inside the flash.
proof fn lemma_page_bounds(i: int, last_page: int, erase: int, capacity: int)
    requires
        0 <= i < last_page,
        erase > 0,
        capacity >= 0,
        last_page == capacity / erase,
    ensures
        i * erase + erase <= last_page * erase,
        last_page * erase <= capacity,
        0 <= i * erase,
{
    assert(i * erase + erase <= last_page * erase) by (nonlinear_arith)
        requires
            i < last_page,
            erase > 0,
    ;
    vstd::arithmetic::div_mod::lemma_fundamental_div_mod(capacity, erase);
    assert(last_page * erase <= capacity) by (nonlinear_arith)
        requires
            capacity == erase * (capacity / erase) + capacity % erase,
            capacity % erase >= 0,
            last_page == capacity / erase,
    ;
    assert(0 <= i * erase) by (nonlinear_arith)
        requires
            0 <= i,
            erase > 0,
    ;
}

/// Read-Modify-Write (RMW) Nor Flash storage structure.
pub struct RmwNorFlashStorage<'a, S> {
    storage: S,
    merge_buffer: &'a mut [u8],
}

impl<'a, S> RmwNorFlashStorage<'a, S> {
    /// The wrapped flash.
    pub closed spec fn flash(&self) -> S {
        self.storage
    }

    /// The length of the merge buffer.
    pub closed spec fn merge_len(&self) -> nat {
        self.merge_buffer@.len()
    }
}

impl<'a, S> RmwNorFlashStorage<'a, S> where S: NorFlash {
    /// Instantiate a new generic `Storage` from a `NorFlash` peripheral
    ///
    /// The provided merge buffer must hold at least one erase page of the flash peripheral. The
    /// storage holds what the flash holds. No call is made on the flash.
    pub fn new(nor_flash: S, merge_buffer: &'a mut [u8]) -> (r: Self)
        requires
            old(merge_buffer)@.len() >= S::ERASE_SIZE,
        ensures
            r.flash() == nor_flash,
            r.merge_len() == old(merge_buffer)@.len(),
            r.models_contents() == nor_flash.models_flash(),
            r.models_capacity() == nor_flash.models_flash(),
            r.storage_contents() == nor_flash.flash_contents(),
            r.capacity_of() == nor_flash.flash_contents().len() as usize,
    {
        Self { storage: nor_flash, merge_buffer }
    }
}

impl<'a, S> ReadStorage for RmwNorFlashStorage<'a, S> where S: ReadNorFlash {
    closed spec fn capacity_of(&self) -> usize {
        self.storage_contents().len() as usize
    }

    /// The storage holds what the flash holds, when the flash is modeled.
    open spec fn models_contents(&self) -> bool {
        self.flash().models_flash()
    }

    open spec fn models_capacity(&self) -> bool {
        self.flash().models_flash()
    }

    type Error = S::Error;

    closed spec fn storage_contents(&self) -> Seq<u8> {
        self.storage.flash_contents()
    }

    fn read(&mut self, offset: u32, bytes: &mut [u8]) -> (r: Result<(), Self::Error>) {
        // Nothing special to be done for reads
        self.storage.read(offset, bytes)
    }

    fn capacity(&self) -> (c: usize) {
        self.storage.capacity()
    }
}

impl<'a, S> Storage for RmwNorFlashStorage<'a, S> where S: NorFlash {
    /// Every byte within the capacity is written when the erase pages cover the whole flash
    /// and the merge buffer holds a page.
    open spec fn models_writes(&self) -> bool {
        rmw_writes_whole(S::ERASE_SIZE as int, self.merge_len() as int, self.storage_contents().len() as int)
    }

    /// Writes `bytes` at `offset` page by page: every erase page the write touches is read into
    /// the merge buffer, erased, and programmed back with the new bytes laid over it. Bytes
    /// beyond the last whole erase page are not written.
    fn write(&mut self, offset: u32, bytes: &[u8]) -> (r: Result<(), Self::Error>)
        ensures
            final(self).merge_len() == old(self).merge_len(),
            old(self).models_contents() && old(self).flash().reliable() && rmw_supported(
                S::ERASE_SIZE as int,
                old(self).merge_len() as int,
                old(self).storage_contents().len() as int,
            ) && page_ops_aligned(S::ERASE_SIZE as int, S::READ_SIZE as int, S::WRITE_SIZE as int) ==> r is Ok,
            final(self).models_contents() == old(self).models_contents(),
            old(self).models_contents() ==> {
                &&& final(self).storage_contents().len() == old(self).storage_contents().len()
                &&& S::ERASE_SIZE > 0 && offset >= (old(self).storage_contents().len() / S::ERASE_SIZE as nat) * S::ERASE_SIZE
                    ==> r is Ok && final(self).storage_contents() == old(self).storage_contents()
                &&& rmw_supported(
                    S::ERASE_SIZE as int,
                    old(self).merge_len() as int,
                    old(self).storage_contents().len() as int,
                ) ==> (r is Ok ==> final(self).storage_contents() == rmw_written(
                    old(self).storage_contents(),
                    offset as int,
                    bytes@,
                    (old(self).storage_contents().len() / S::ERASE_SIZE as nat) * S::ERASE_SIZE,
                ))
                &&& !rmw_supported(
                    S::ERASE_SIZE as int,
                    old(self).merge_len() as int,
                    old(self).storage_contents().len() as int,
                ) ==> r is Ok && final(self).storage_contents() == old(self).storage_contents()
            },
    {
        let e = S::ERASE_SIZE;
        let capacity = self.storage.capacity();
        if e == 0 || self.merge_buffer.len() < e || capacity > u32::MAX as usize {
            return Ok(());
        }
        // Perform read/modify/write operations on the byte slice.
        let last_page = capacity / e;
        let ghost c0 = self.storage.flash_contents();
        let ghost m0 = self.merge_buffer@.len();
        let ghost m = self.storage.models_flash();
        let ghost rel = self.storage.reliable();
        proof {
            lemma_whole_pages_fit(capacity as int, e as int);
        }
        let mut i: usize = 0;
        while i < last_page
            invariant
                e == S::ERASE_SIZE,
                e > 0,
                m == old(self).storage.models_flash(),
                rel == old(self).storage.reliable(),
                self.storage.reliable() == rel,
                m ==> capacity == c0.len(),
                capacity <= u32::MAX,
                last_page == capacity / e,
                0 <= i <= last_page,
                m0 == self.merge_buffer@.len(),
                m0 >= e,
                c0 == old(self).storage.flash_contents(),
                m0 == old(self).merge_buffer@.len(),
                self.storage.models_flash() == m,
                m ==> self.storage.flash_contents() == rmw_written(c0, offset as int, bytes@, i * e),
                last_page * e <= capacity,
            decreases last_page - i,
        {
            proof {
                lemma_page_bounds(i as int, last_page as int, e as int, capacity as int);
            }
            let page = Page::new(i as u32, e);
            let page_start = page.start();
            let page_end = page.end();
            let ghost cur = self.storage.flash_contents();
            // `data` is the part of `bytes` contained within `page`, and `addr` the address of
            // its first byte.
            match overlap_in_page(offset, bytes.len(), page_start, page_end) {
                Some((a, b, addr)) => {
                    let data = vstd::slice::slice_subrange(bytes, a, b);
                    let offset_into_page = addr.saturating_sub(page_start) as usize;
                    proof {
                        vstd::arithmetic::div_mod::lemma_mod_multiples_basic(i as int, e as int);
                    }
                    rmw_page(&mut self.storage, self.merge_buffer, page_start, offset_into_page, data)?;
                },
                None => {},
            }
            proof {
                if m {
                    lemma_rmw_page_step(
                        c0,
                        offset as int,
                        bytes@,
                        i * e,
                        e as int,
                        cur,
                        self.storage.flash_contents(),
                    );
                }
                assert((i + 1) * e == i * e + e) by (nonlinear_arith);
            }
            i = i + 1;
        }
        proof {
            if m && offset >= last_page * e {
                assert(rmw_written(c0, offset as int, bytes@, last_page * e) =~= c0);
            }
            if m && capacity % e == 0 && offset + bytes@.len() <= capacity {
                vstd::arithmetic::div_mod::lemma_fundamental_div_mod(capacity as int, e as int);
                assert(last_page * e == capacity) by (nonlinear_arith)
                    requires
                        capacity == e * (capacity / e) + capacity % e,
                        capacity % e == 0,
                        last_page == capacity / e,
                ;
                lemma_rmw_written_whole(c0, offset as int, bytes@, last_page * e);
            }
        }
        Ok(())
    }
}


/// Sets the first `end` bytes of `buf` to all ones.
fn fill_ones(buf: &mut [u8], end: usize)
    requires
        end <= old(buf)@.len(),
    ensures
        final(buf)@.len() == old(buf)@.len(),
        forall|k: int| 0 <= k < end ==> #[trigger] final(buf)@[k] == 0xffu8,
        forall|k: int| end <= k < old(buf)@.len() ==> #[trigger] final(buf)@[k] == old(buf)@[k],
{
    let mut k: usize = 0;
    while k < end
        invariant
            end <= buf@.len(),
            buf@.len() == old(buf)@.len(),
            0 <= k <= end,
            forall|t: int| 0 <= t < k ==> #[trigger] buf@[t] == 0xffu8,
            forall|t: int| k <= t < buf@.len() ==> #[trigger] buf@[t] == old(buf)@[t],
        decreases end - k,
    {
        buf[k] = 0xff;
        k = k + 1;
    }
}

/// Whether every byte of `data` only clears bits of the byte of `current` it would be written
/// over, starting at `at`.
fn only_clears_bits(data: &[u8], current: &[u8], at: usize) -> (b: bool)
    requires
        at + data@.len() <= current@.len(),
    ensures
        b == forall|j: int|
            0 <= j < data@.len() ==> #[trigger] (data@[j] & current@[at + j]) == data@[j],
{
    let n = data.len();
    let clen = current.len();
    let mut j: usize = 0;
    while j < n
        invariant
            n == data@.len(),
            clen == current@.len(),
            at + n <= current@.len(),
            0 <= j <= n,
            forall|t: int| 0 <= t < j ==> #[trigger] (data@[t] & current@[at + t]) == data@[t],
        decreases n - j,
    {
        if data[j] & current[at + j] != data[j] {
            return false;
        }
        j = j + 1;
    }
    true
}

/// Whether every byte of `data` only clears bits of the byte of `current` it would be written
/// over, starting at `at`.
pub open spec fn clears_only(data: Seq<u8>, current: Seq<u8>, at: int) -> bool {
    forall|j: int| 0 <= j < data.len() ==> #[trigger] (data[j] & current[at + j]) == data[j]
}

/// `x` rounded up to a multiple of `w`.
pub open spec fn round_up(x: int, w: int) -> int {
    if x % w == 0 {
        x
    } else {
        x + (w - x % w)
    }
}

/// Rounding up gives a multiple of `w` that is at least `x`.
proof fn lemma_round_up_multiple(x: int, w: int)
    requires
        w > 0,
        x >= 0,
    ensures
        round_up(x, w) % w == 0,
        round_up(x, w) >= x,
{
    vstd::arithmetic::div_mod::lemma_fundamental_div_mod(x, w);
    if x % w != 0 {
        let k = x / w + 1;
        assert(round_up(x, w) == k * w) by (nonlinear_arith)
            requires
                x == w * (x / w) + x % w,
                round_up(x, w) == x + (w - x % w),
                k == x / w + 1,
        ;
        vstd::arithmetic::div_mod::lemma_mod_multiples_basic(k, w);
    }
}

/// Rounding up never passes a multiple of `w` that is at least `x`.
proof fn lemma_round_up_below(x: int, y: int, w: int)
    requires
        w > 0,
        0 <= x <= y,
        y % w == 0,
    ensures
        round_up(x, w) <= y,
{
    vstd::arithmetic::div_mod::lemma_fundamental_div_mod(x, w);
    vstd::arithmetic::div_mod::lemma_fundamental_div_mod(y, w);
    let qx = x / w;
    let qy = y / w;
    if x % w != 0 {
        assert(w * qy > w * qx);
        assert(qy > qx) by (nonlinear_arith)
            requires
                w > 0,
                w * qy > w * qx,
        ;
        assert(w * qy >= w * (qx + 1)) by (nonlinear_arith)
            requires
                w > 0,
                qy >= qx + 1,
        ;
        assert(w * (qx + 1) == w * qx + w) by (nonlinear_arith);
    }
}

/// In an erase page whose size is a multiple of the write size `w`, the words that a write of
/// `len` bytes at `oip` bytes into the page covers, from the word boundary below its start to the
/// word boundary at or after its end, stay within the page.
proof fn lemma_padded_write_fits(page_start: int, oip: int, len: int, w: int, e: int)
    requires
        w > 0,
        e > 0,
        e % w == 0,
        page_start >= 0,
        page_start % e == 0,
        oip >= 0,
        len >= 0,
        oip + len <= e,
    ensures
        (page_start + oip) % w <= oip,
        round_up((page_start + oip) % w + len, w) <= e - (oip - (page_start + oip) % w),
{
    vstd::arithmetic::div_mod::lemma_fundamental_div_mod(e, w);
    vstd::arithmetic::div_mod::lemma_fundamental_div_mod(page_start, e);
    vstd::arithmetic::div_mod::lemma_fundamental_div_mod(oip, w);
    let a = (e / w) * (page_start / e);
    assert(page_start == w * a) by (nonlinear_arith)
        requires
            e == w * (e / w),
            page_start == e * (page_start / e),
            a == (e / w) * (page_start / e),
    ;
    vstd::arithmetic::div_mod::lemma_mod_multiples_vanish(a, oip, w);
    let off = oip % w;
    let q = oip / w;
    assert(e / w >= q) by (nonlinear_arith)
        requires
            w > 0,
            e == w * (e / w),
            oip == w * q + off,
            0 <= off,
            oip <= e,
            q == oip / w,
    ;
    let y = e - w * q;
    assert(y == w * (e / w - q)) by (nonlinear_arith)
        requires
            e == w * (e / w),
            y == e - w * q,
    ;
    vstd::arithmetic::div_mod::lemma_mod_multiples_basic(e / w - q, w);
    assert(w * (e / w - q) == (e / w - q) * w) by (nonlinear_arith);
    lemma_round_up_below(off + len, y, w);
    assert(w * q == oip - off);
}

/// Read-modify-write of one erase page of a flash that may program a word twice: when the new
/// bytes only clear bits of what the page holds they are programmed in place (padded with ones to
/// the write alignment), otherwise the page is erased and programmed back with the new bytes laid
/// over it.
#[verifier::rlimit(60)]
#[verifier::spinoff_prover]
fn multiwrite_page<S: MultiwriteNorFlash>(
    storage: &mut S,
    merge: &mut [u8],
    page_start: u32,
    offset_into_page: usize,
    addr: u32,
    data: &[u8],
) -> (r: Result<(), S::Error>)
    requires
        S::ERASE_SIZE <= old(merge)@.len(),
        (*old(storage)).models_flash() ==> page_start + S::ERASE_SIZE <= (*old(storage)).flash_contents().len(),
        page_start + S::ERASE_SIZE <= u32::MAX,
        offset_into_page + data@.len() <= S::ERASE_SIZE,
        addr == page_start + offset_into_page,
    ensures
        final(merge)@.len() == old(merge)@.len(),
        (*final(storage)).models_flash() == (*old(storage)).models_flash(),
        (*final(storage)).reliable() == (*old(storage)).reliable(),
        (*old(storage)).models_flash() && (*old(storage)).reliable()
            && page_ops_aligned(S::ERASE_SIZE as int, S::READ_SIZE as int, S::WRITE_SIZE as int)
            && page_start as int % S::ERASE_SIZE as int == 0 ==> r is Ok,
        (*old(storage)).models_flash() ==> {
            &&& (*final(storage)).flash_contents().len() == (*old(storage)).flash_contents().len()
            &&& r is Ok && S::programs_by_and() ==> (*final(storage)).flash_contents()
                == overwrite((*old(storage)).flash_contents(), addr as int, data@)
            &&& S::WRITE_SIZE > 0 && S::ERASE_SIZE > 0 && S::ERASE_SIZE % S::WRITE_SIZE == 0
                && page_start as int % S::ERASE_SIZE as int == 0
                && clears_only(data@, (*old(storage)).flash_contents(), addr as int)
                ==> (*final(storage)).erase_count() == (*old(storage)).erase_count()
            &&& r is Ok && S::WRITE_SIZE > 0 && S::ERASE_SIZE > 0 && S::ERASE_SIZE % S::WRITE_SIZE == 0
                && page_start as int % S::ERASE_SIZE as int == 0
                ==> forall|k: int| 0 <= k < (*old(storage)).flash_contents().len() && !(page_start <= k
                    < page_start + S::ERASE_SIZE) ==> #[trigger] (*final(storage)).flash_contents()[k]
                    == (*old(storage)).flash_contents()[k]
        },
{
    let e = S::ERASE_SIZE;
    let ghost m = storage.models_flash();
    let ghost c0 = storage.flash_contents();
    let ghost n0 = storage.erase_count();
    let ghost m0 = merge@.len();
    let ghost live = m && storage.reliable()
        && page_ops_aligned(S::ERASE_SIZE as int, S::READ_SIZE as int, S::WRITE_SIZE as int)
        && page_start as int % S::ERASE_SIZE as int == 0;
    proof {
        if live {
            lemma_multiple_of_multiple(page_start as int, S::ERASE_SIZE as int, S::READ_SIZE as int);
        }
    }
    {
        let (page, _rest) = merge.split_at_mut(e);
        storage.read(page_start, page)?;
    }
    proof {
        if m {
            assert(merge@.subrange(0, e as int) =~= c0.subrange(page_start as int, page_start + e));
        }
    }
    let ghost read_page = merge@;
    let is_subset = only_clears_bits(data, merge, offset_into_page);
    proof {
        if m && clears_only(data@, c0, addr as int) {
            assert forall|j: int| 0 <= j < data@.len() implies #[trigger] (data@[j] & read_page[offset_into_page + j]) == data@[j] by {
                assert(read_page[offset_into_page + j] == c0[addr + j]);
            }
        }
    }
    // Check if we can write the data block directly, under the limitations imposed by NorFlash:
    // - We can only change 1's to 0's
    let w = S::WRITE_SIZE;
    if is_subset && w > 0 {
        let offset = addr as usize % w;
        proof {
            vstd::arithmetic::div_mod::lemma_mod_decreases(addr as nat, w as nat);
            vstd::arithmetic::div_mod::lemma_mod_decreases(data@.len(), w as nat);
        }
        // Pad from the word boundary below `addr` up to the word boundary at or after the end of
        // `data`.
        let needed = offset as u128 + data.len() as u128;
        let rem = needed % (w as u128);
        let aligned_end_wide = if rem == 0 {
            needed
        } else {
            needed + (w as u128 - rem)
        };
        proof {
            assert(aligned_end_wide == round_up(addr as int % w as int + data@.len(), w as int));
            if e > 0 && e % w == 0 && page_start as int % e as int == 0 {
                lemma_padded_write_fits(page_start as int, offset_into_page as int, data@.len() as int, w as int, e as int);
                assert(aligned_end_wide <= merge@.len());
                lemma_round_up_multiple(addr as int % w as int + data@.len(), w as int);
                vstd::arithmetic::div_mod::lemma_fundamental_div_mod(addr as int, w as int);
                vstd::arithmetic::div_mod::lemma_mod_multiples_basic(addr as int / w as int, w as int);
                assert(addr as int - addr as int % w as int == (addr as int / w as int) * w as int) by (nonlinear_arith)
                    requires
                        addr as int == w as int * (addr as int / w as int) + addr as int % w as int,
                ;
            }
        }
        if aligned_end_wide <= merge.len() as u128 {
            let aligned_end = aligned_end_wide as usize;
            // Use `merge` as allocation for padding `data` to `WRITE_SIZE`
            fill_ones(merge, aligned_end);
            let ghost padded = merge@;
            overlay(merge, offset, data);
            let chunk = vstd::slice::slice_subrange(merge, 0, aligned_end);
            let r = storage.write(addr - offset as u32, chunk);
            proof {
                if m && r is Ok && e > 0 && e % w == 0 && page_start as int % e as int == 0 {
                    let c2 = storage.flash_contents();
                    let base = addr - offset;
                    assert forall|k: int| 0 <= k < c0.len() && !(page_start <= k < page_start + e)
                        implies #[trigger] c2[k] == c0[k] by {
                        assert(!(base <= k < base + aligned_end));
                    }
                }
            }
            proof {
                if m && r is Ok && S::programs_by_and() {
                    let c2 = storage.flash_contents();
                    let base = addr - offset;
                    assert forall|k: int| 0 <= k < c2.len() implies #[trigger] c2[k] == overwrite(
                        c0,
                        addr as int,
                        data@,
                    )[k] by {
                        if base <= k < base + aligned_end {
                            if addr <= k < addr + data@.len() {
                                let j = k - addr;
                                assert(read_page[offset_into_page + j] == c0[k]);
                                assert((data@[j] & read_page[offset_into_page + j]) == data@[j]);
                                lemma_and_subset(data@[j], c0[k]);
                            } else {
                                lemma_and_ones(c0[k]);
                            }
                        }
                    }
                    assert(c2 =~= overwrite(c0, addr as int, data@));
                }
            }
            return r;
        }
    }
    let (page, _rest) = merge.split_at_mut(e);
    let ghost read_back = page@;
    overlay(page, offset_into_page, data);
    let r = erase_and_program(storage, page_start, page);
    proof {
        if m && r is Ok {
            let c2 = storage.flash_contents();
            assert(read_back =~= c0.subrange(page_start as int, page_start + e));
            assert(c2 =~= overwrite(c0, addr as int, data@));
        }
    }
    r
}

/// Read-Modify-Write (RMW) Multi-Write Nor Flash storage structure.
pub struct RmwMultiwriteNorFlashStorage<'a, S> {
    storage: S,
    merge_buffer: &'a mut [u8],
}

impl<'a, S> RmwMultiwriteNorFlashStorage<'a, S> {
    /// The wrapped flash.
    pub closed spec fn flash(&self) -> S {
        self.storage
    }

    /// The length of the merge buffer.
    pub closed spec fn merge_len(&self) -> nat {
        self.merge_buffer@.len()
    }
}

impl<'a, S> RmwMultiwriteNorFlashStorage<'a, S> where S: MultiwriteNorFlash {
    /// Instantiate a new generic `Storage` from a `NorFlash` peripheral
    ///
    /// The provided merge buffer must hold at least one erase page of the flash peripheral. The
    /// storage holds what the flash holds. No call is made on the flash.
    pub fn new(nor_flash: S, merge_buffer: &'a mut [u8]) -> (r: Self)
        requires
            old(merge_buffer)@.len() >= S::ERASE_SIZE,
        ensures
            r.flash() == nor_flash,
            r.merge_len() == old(merge_buffer)@.len(),
            r.models_contents() == nor_flash.models_flash(),
            r.models_capacity() == nor_flash.models_flash(),
            r.storage_contents() == nor_flash.flash_contents(),
            r.capacity_of() == nor_flash.flash_contents().len() as usize,
    {
        Self { storage: nor_flash, merge_buffer }
    }
}

impl<'a, S> ReadStorage for RmwMultiwriteNorFlashStorage<'a, S> where S: ReadNorFlash {
    closed spec fn capacity_of(&self) -> usize {
        self.storage_contents().len() as usize
    }

    /// The storage holds what the flash holds, when the flash is modeled.
    open spec fn models_contents(&self) -> bool {
        self.flash().models_flash()
    }

    open spec fn models_capacity(&self) -> bool {
        self.flash().models_flash()
    }

    type Error = S::Error;

    closed spec fn storage_contents(&self) -> Seq<u8> {
        self.storage.flash_contents()
    }

    fn read(&mut self, offset: u32, bytes: &mut [u8]) -> (r: Result<(), Self::Error>) {
        // Nothing special to be done for reads
        self.storage.read(offset, bytes)
    }

    fn capacity(&self) -> (c: usize) {
        self.storage.capacity()
    }
}

impl<'a, S> Storage for RmwMultiwriteNorFlashStorage<'a, S> where S: MultiwriteNorFlash {
    /// Every byte within the capacity is written when the erase pages cover the whole flash
    /// and the merge buffer holds a page (and the flash writes the AND of old and new bytes).
    open spec fn models_writes(&self) -> bool {
        rmw_writes_whole(S::ERASE_SIZE as int, self.merge_len() as int, self.storage_contents().len() as int) && S::programs_by_and()
    }

    /// Writes `bytes` at `offset` page by page. On every erase page the write touches, the new
    /// bytes are programmed in place when they only clear bits; otherwise the page is read into
    /// the merge buffer, erased, and programmed back with the new bytes laid over it. Bytes beyond
    /// the last whole erase page are not written.
    ///
    /// What the storage holds afterwards is stated for a flash whose writes leave the bitwise AND
    /// of old and new bytes; that no page is erased when the new bytes only clear bits is stated
    /// for any modeled flash whose erase pages are a whole number of write words.
    fn write(&mut self, offset: u32, bytes: &[u8]) -> (r: Result<(), Self::Error>)
        ensures
            final(self).merge_len() == old(self).merge_len(),
            old(self).models_contents() && old(self).flash().reliable() && rmw_supported(
                S::ERASE_SIZE as int,
                old(self).merge_len() as int,
                old(self).storage_contents().len() as int,
            ) && page_ops_aligned(S::ERASE_SIZE as int, S::READ_SIZE as int, S::WRITE_SIZE as int) ==> r is Ok,
            final(self).models_contents() == old(self).models_contents(),
            old(self).models_contents() ==> {
                &&& final(self).storage_contents().len() == old(self).storage_contents().len()
                &&& S::ERASE_SIZE > 0 && offset >= (old(self).storage_contents().len() / S::ERASE_SIZE as nat) * S::ERASE_SIZE
                    ==> r is Ok && final(self).storage_contents() == old(self).storage_contents()
                &&& rmw_supported(
                    S::ERASE_SIZE as int,
                    old(self).merge_len() as int,
                    old(self).storage_contents().len() as int,
                ) && S::programs_by_and() ==> (r is Ok ==> final(self).storage_contents() == rmw_written(
                    old(self).storage_contents(),
                    offset as int,
                    bytes@,
                    (old(self).storage_contents().len() / S::ERASE_SIZE as nat) * S::ERASE_SIZE,
                ))
                &&& !rmw_supported(
                    S::ERASE_SIZE as int,
                    old(self).merge_len() as int,
                    old(self).storage_contents().len() as int,
                ) ==> r is Ok && final(self).storage_contents() == old(self).storage_contents()
                &&& S::WRITE_SIZE > 0 && S::ERASE_SIZE % S::WRITE_SIZE == 0
                    && clears_only(bytes@, old(self).storage_contents(), offset as int)
                    ==> final(self).flash().erase_count() == old(self).flash().erase_count()
            },
    {
        let e = S::ERASE_SIZE;
        let capacity = self.storage.capacity();
        if e == 0 || self.merge_buffer.len() < e || capacity > u32::MAX as usize {
            return Ok(());
        }
        // Perform read/modify/write operations on the byte slice.
        let last_page = capacity / e;
        let ghost c0 = self.storage.flash_contents();
        let ghost n0 = self.storage.erase_count();
        let ghost m0 = self.merge_buffer@.len();
        let ghost m = self.storage.models_flash();
        let ghost rel = self.storage.reliable();
        let ghost clear = S::WRITE_SIZE > 0 && e % S::WRITE_SIZE == 0 && clears_only(bytes@, c0, offset as int);
        proof {
            lemma_whole_pages_fit(capacity as int, e as int);
        }
        let mut i: usize = 0;
        while i < last_page
            invariant
                e == S::ERASE_SIZE,
                e > 0,
                m == old(self).storage.models_flash(),
                rel == old(self).storage.reliable(),
                self.storage.reliable() == rel,
                m ==> capacity == c0.len(),
                capacity <= u32::MAX,
                last_page == capacity / e,
                0 <= i <= last_page,
                m0 == self.merge_buffer@.len(),
                m0 >= e,
                c0 == old(self).storage.flash_contents(),
                n0 == old(self).storage.erase_count(),
                m0 == old(self).merge_buffer@.len(),
                clear == (S::WRITE_SIZE > 0 && e % S::WRITE_SIZE == 0 && clears_only(bytes@, c0, offset as int)),
                self.storage.models_flash() == m,
                m ==> self.storage.flash_contents().len() == c0.len(),
                m && S::programs_by_and() ==> self.storage.flash_contents() == rmw_written(c0, offset as int, bytes@, i * e),
                m && clear ==> self.storage.erase_count() == n0,
                m && clear ==> forall|k: int| i * e <= k < c0.len() ==> #[trigger] self.storage.flash_contents()[k] == c0[k],
                m && offset >= last_page * e ==> self.storage.flash_contents() == c0,
                last_page * e <= capacity,
            decreases last_page - i,
        {
            proof {
                lemma_page_bounds(i as int, last_page as int, e as int, capacity as int);
            }
            let page = Page::new(i as u32, e);
            let page_start = page.start();
            let page_end = page.end();
            let ghost cur = self.storage.flash_contents();
            // `data` is the part of `bytes` contained within `page`, and `addr` the address of
            // its first byte.
            match overlap_in_page(offset, bytes.len(), page_start, page_end) {
                Some((a, b, addr)) => {
                    let data = vstd::slice::slice_subrange(bytes, a, b);
                    let offset_into_page = addr.saturating_sub(page_start) as usize;
                    proof {
                        assert(offset < last_page * e);
                        vstd::arithmetic::div_mod::lemma_mod_multiples_basic(i as int, e as int);
                        if m && clear {
                            assert forall|j: int| 0 <= j < data@.len() implies #[trigger] (data@[j] & cur[addr + j]) == data@[j] by {
                                assert(data@[j] == bytes@[a + j]);
                                assert(addr + j == offset + (a + j));
                                assert(cur[addr + j] == c0[addr + j]);
                            }
                        }
                    }
                    multiwrite_page(
                        &mut self.storage,
                        self.merge_buffer,
                        page_start,
                        offset_into_page,
                        addr,
                        data,
                    )?;
                },
                None => {},
            }
            proof {
                if m && S::programs_by_and() {
                    lemma_rmw_page_step(
                        c0,
                        offset as int,
                        bytes@,
                        i * e,
                        e as int,
                        cur,
                        self.storage.flash_contents(),
                    );
                }
                assert((i + 1) * e == i * e + e) by (nonlinear_arith);
            }
            i = i + 1;
        }
        proof {
            if m && S::programs_by_and() && offset >= last_page * e {
                assert(rmw_written(c0, offset as int, bytes@, last_page * e) =~= c0);
            }
            if m && S::programs_by_and() && capacity % e == 0 && offset + bytes@.len() <= capacity {
                vstd::arithmetic::div_mod::lemma_fundamental_div_mod(capacity as int, e as int);
                assert(last_page * e == capacity) by (nonlinear_arith)
                    requires
                        capacity == e * (capacity / e) + capacity % e,
                        capacity % e == 0,
                        last_page == capacity / e,
                ;
                lemma_rmw_written_whole(c0, offset as int, bytes@, last_page * e);
            }
        }
        Ok(())
    }
}

} // verus!
