use embedded_hal_io::adapters::storage::{FromEmbeddedStorage, StorageIOError, ToEmbeddedStorage};
use embedded_hal_io::cursor::Cursor;
use embedded_hal_io::io::{Error, ErrorKind, Read, Seek, SeekFrom, Write};
use embedded_hal_io::nor_flash::{
    check_erase, check_read, check_write, ErrorType, MultiwriteNorFlash, NorFlash,
    NorFlashError, NorFlashErrorKind, ReadNorFlash, RmwMultiwriteNorFlashStorage,
    RmwNorFlashStorage,
};
use embedded_hal_io::storage::{ReadStorage, Storage};

/// A 32-byte flash in RAM: reads of single bytes, writes of 4-byte words, erases of 8-byte
/// sectors; a write can only clear bits.
struct RamFlash {
    data: Vec<u8>,
    erases: usize,
}

impl RamFlash {
    fn new(fill: u8) -> Self {
        RamFlash { data: vec![fill; 32], erases: 0 }
    }
}

impl ErrorType for RamFlash {
    type Error = NorFlashErrorKind;
}

impl ReadNorFlash for RamFlash {
    const READ_SIZE: usize = 1;

    fn read(&mut self, offset: u32, bytes: &mut [u8]) -> Result<(), Self::Error> {
        check_read(self, offset, bytes.len())?;
        let o = offset as usize;
        bytes.copy_from_slice(&self.data[o..o + bytes.len()]);
        Ok(())
    }

    fn capacity(&self) -> usize {
        self.data.len()
    }
}

impl NorFlash for RamFlash {
    const WRITE_SIZE: usize = 4;
    const ERASE_SIZE: usize = 8;

    fn erase(&mut self, from: u32, to: u32) -> Result<(), Self::Error> {
        check_erase(self, from, to)?;
        for b in &mut self.data[from as usize..to as usize] {
            *b = 0xff;
        }
        self.erases += 1;
        Ok(())
    }

    fn write(&mut self, offset: u32, bytes: &[u8]) -> Result<(), Self::Error> {
        check_write(self, offset, bytes.len())?;
        for (i, b) in bytes.iter().enumerate() {
            self.data[offset as usize + i] &= *b;
        }
        Ok(())
    }
}

impl MultiwriteNorFlash for RamFlash {}

fn pattern() -> Vec<u8> {
    (0u8..32).collect()
}

#[test]
fn check_helpers_report_alignment_and_bounds() {
    let flash = RamFlash::new(0xff);
    assert_eq!(check_read(&flash, 0, 32), Ok(()));
    assert_eq!(check_read(&flash, 30, 4), Err(NorFlashErrorKind::OutOfBounds));
    assert_eq!(check_write(&flash, 4, 8), Ok(()));
    assert_eq!(check_write(&flash, 2, 4), Err(NorFlashErrorKind::NotAligned));
    assert_eq!(check_write(&flash, 4, 3), Err(NorFlashErrorKind::NotAligned));
    assert_eq!(check_write(&flash, 32, 4), Err(NorFlashErrorKind::OutOfBounds));
    assert_eq!(check_erase(&flash, 8, 16), Ok(()));
    assert_eq!(check_erase(&flash, 16, 8), Err(NorFlashErrorKind::OutOfBounds));
    assert_eq!(check_erase(&flash, 8, 40), Err(NorFlashErrorKind::OutOfBounds));
    assert_eq!(check_erase(&flash, 4, 16), Err(NorFlashErrorKind::NotAligned));
}

#[test]
fn error_kinds_have_messages() {
    assert_eq!(NorFlashErrorKind::NotAligned.kind(), NorFlashErrorKind::NotAligned);
    assert!(!NorFlashErrorKind::OutOfBounds.message().is_empty());
    assert!(!NorFlashErrorKind::Other.message().is_empty());
}

#[test]
fn rmw_write_reads_back_across_sectors() {
    let mut flash = RamFlash::new(0);
    flash.data = pattern();
    let mut merge = [0u8; 8];
    let mut storage = RmwNorFlashStorage::new(flash, &mut merge);
    storage.write(6, &[0xa0, 0xa1, 0xa2, 0xa3, 0xa4]).unwrap();
    let mut all = [0u8; 32];
    storage.read(0, &mut all).unwrap();
    let mut expected = pattern();
    expected[6..11].copy_from_slice(&[0xa0, 0xa1, 0xa2, 0xa3, 0xa4]);
    assert_eq!(all.to_vec(), expected);
    assert_eq!(storage.capacity(), 32);
}

#[test]
fn rmw_read_out_of_bounds_fails() {
    let mut merge = [0u8; 8];
    let mut storage = RmwNorFlashStorage::new(RamFlash::new(0xff), &mut merge);
    let mut buf = [0u8; 4];
    assert_eq!(storage.read(30, &mut buf), Err(NorFlashErrorKind::OutOfBounds));
}

#[test]
fn rmw_multiwrite_reads_back_and_skips_erase_when_possible() {
    let mut merge = [0u8; 8];
    let mut storage = RmwMultiwriteNorFlashStorage::new(RamFlash::new(0xff), &mut merge);
    // Only clearing bits: no erase is needed.
    storage.write(4, &[0x0f, 0xf0]).unwrap();
    let mut buf = [0u8; 6];
    storage.read(2, &mut buf).unwrap();
    assert_eq!(buf, [0xff, 0xff, 0x0f, 0xf0, 0xff, 0xff]);
    // Setting bits again needs an erase; the neighbours survive it.
    storage.write(4, &[0xff, 0x11]).unwrap();
    storage.read(2, &mut buf).unwrap();
    assert_eq!(buf, [0xff, 0xff, 0xff, 0x11, 0xff, 0xff]);
}

#[test]
fn storage_io_error_from_flash_errors() {
    assert_eq!(StorageIOError::from(NorFlashErrorKind::NotAligned).kind(), ErrorKind::InvalidInput);
    assert_eq!(StorageIOError::from(NorFlashErrorKind::OutOfBounds).kind(), ErrorKind::InvalidInput);
    assert_eq!(StorageIOError::from(NorFlashErrorKind::Other).kind(), ErrorKind::Other);
    assert_eq!(StorageIOError::new(ErrorKind::TimedOut).kind(), ErrorKind::TimedOut);
}

#[test]
fn stream_over_storage_reads_back_writes() {
    let mut merge = [0u8; 8];
    let storage = RmwNorFlashStorage::new(RamFlash::new(0xff), &mut merge);
    let mut stream = FromEmbeddedStorage::new(storage);
    assert_eq!(stream.seek(SeekFrom::Start(10)).unwrap(), 10);
    assert_eq!(stream.write(&[1, 2, 3]).unwrap(), 3);
    assert_eq!(stream.seek(SeekFrom::Current(-3)).unwrap(), 10);
    let mut buf = [0u8; 4];
    assert_eq!(stream.read(&mut buf).unwrap(), 4);
    assert_eq!(buf, [1, 2, 3, 0xff]);
    assert_eq!(stream.seek(SeekFrom::End(-2)).unwrap(), 30);
    let mut too_long = [0u8; 4];
    assert_eq!(stream.read(&mut too_long).unwrap_err().kind(), ErrorKind::InvalidInput);
    assert_eq!(stream.seek(SeekFrom::Current(0)).unwrap(), 30);
    assert_eq!(stream.seek(SeekFrom::Current(-31)).unwrap_err().kind(), ErrorKind::InvalidInput);
    assert_eq!(stream.seek(SeekFrom::Start(1 << 40)).unwrap_err().kind(), ErrorKind::InvalidInput);
    assert_eq!(stream.seek(SeekFrom::Current(0)).unwrap(), 30);
}

#[test]
fn storage_over_stream() {
    let cursor = Cursor::new(vec![0u8, 1, 2, 3, 4, 5, 6, 7]);
    let mut storage = ToEmbeddedStorage::new(cursor).unwrap();
    assert_eq!(storage.capacity(), 8);
    let mut buf = [0u8; 3];
    storage.read(2, &mut buf).unwrap();
    assert_eq!(buf, [2, 3, 4]);
    storage.write(5, &[9, 9]).unwrap();
    storage.read(4, &mut buf).unwrap();
    assert_eq!(buf, [4, 9, 9]);
    let mut past_end = [0u8; 4];
    assert!(storage.read(6, &mut past_end).is_err());
    assert_eq!(storage.into_inner().into_inner(), vec![0, 1, 2, 3, 4, 9, 9, 7]);
}

#[test]
fn rmw_multiwrite_same_data_twice_is_like_once() {
    let mut merge = [0u8; 8];
    let mut storage = RmwMultiwriteNorFlashStorage::new(RamFlash::new(0xff), &mut merge);
    storage.write(8, &[0x12, 0x34, 0x56, 0x78]).unwrap();
    let mut once = [0u8; 32];
    storage.read(0, &mut once).unwrap();
    storage.write(8, &[0x12, 0x34, 0x56, 0x78]).unwrap();
    let mut twice = [0u8; 32];
    storage.read(0, &mut twice).unwrap();
    assert_eq!(once, twice);
    assert_eq!(&twice[8..12], &[0x12, 0x34, 0x56, 0x78]);
}

#[test]
fn rmw_multiwrite_unaligned_write_without_erase() {
    // Three bytes at an unaligned address: they only clear bits, so they are programmed in
    // place, padded with ones to whole words.
    let mut merge = [0u8; 8];
    let mut storage = RmwMultiwriteNorFlashStorage::new(RamFlash::new(0xff), &mut merge);
    storage.write(9, &[0x12, 0x34, 0x56]).unwrap();
    let mut buf = [0u8; 8];
    storage.read(8, &mut buf).unwrap();
    assert_eq!(buf, [0xff, 0x12, 0x34, 0x56, 0xff, 0xff, 0xff, 0xff]);
}

#[test]
fn erased_sector_reads_ones_and_takes_programmed_data() {
    let mut flash = RamFlash::new(0);
    flash.data = pattern();
    flash.erase(8, 16).unwrap();
    let mut sector = [0u8; 8];
    ReadNorFlash::read(&mut flash, 8, &mut sector).unwrap();
    assert_eq!(sector, [0xff; 8]);
    NorFlash::write(&mut flash, 8, &[1, 2, 3, 4]).unwrap();
    let mut word = [0u8; 4];
    ReadNorFlash::read(&mut flash, 8, &mut word).unwrap();
    assert_eq!(word, [1, 2, 3, 4]);
    let mut before = [0u8; 8];
    ReadNorFlash::read(&mut flash, 0, &mut before).unwrap();
    assert_eq!(before.to_vec(), pattern()[0..8].to_vec());
}

#[test]
fn storage_over_array_cursor_has_its_length() {
    let storage = ToEmbeddedStorage::new(Cursor::new([0u8; 16])).unwrap();
    assert_eq!(storage.capacity(), 16);
    let mut stream = storage.into_inner();
    assert_eq!(stream.seek(SeekFrom::Current(0)).unwrap(), 16);
    let mut s = ToEmbeddedStorage::new(Cursor::new([1u8, 2, 3, 4])).unwrap();
    let mut bytes = [0u8; 4];
    assert!(s.read(2, &mut bytes).is_err());
}
