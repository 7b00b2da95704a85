use embedded_hal_io::cursor::{Cursor, CursorError};
use embedded_hal_io::io::{BufRead, Error, ErrorKind, Read, ReadReady, Seek, SeekFrom, Write, WriteReady};

#[test]
fn new_and_position() {
    let cursor = Cursor::new([1u8, 2, 3]);
    assert_eq!(cursor.position(), 0);
    assert_eq!(cursor.get_ref(), &[1, 2, 3]);
}

#[test]
fn set_position() {
    let mut cursor = Cursor::new([1u8, 2, 3]);
    cursor.set_position(2);
    assert_eq!(cursor.position(), 2);
}

#[test]
fn into_inner() {
    let cursor = Cursor::new([1u8, 2, 3]);
    assert_eq!(cursor.into_inner(), [1, 2, 3]);
}

#[test]
fn get_mut() {
    let mut cursor = Cursor::new([1u8, 2, 3]);
    cursor.get_mut()[0] = 10;
    assert_eq!(cursor.get_ref(), &[10, 2, 3]);
}

#[test]
fn remaining_slice() {
    let mut cursor = Cursor::new([1u8, 2, 3, 4, 5]);
    assert_eq!(cursor.remaining_slice(), &[1, 2, 3, 4, 5]);
    cursor.set_position(2);
    assert_eq!(cursor.remaining_slice(), &[3, 4, 5]);
    cursor.set_position(5);
    assert_eq!(cursor.remaining_slice(), &[]);
    // Position beyond end.
    cursor.set_position(100);
    assert_eq!(cursor.remaining_slice(), &[]);
}

#[test]
fn is_empty() {
    let mut cursor = Cursor::new([1u8, 2, 3]);
    assert!(!cursor.is_empty());
    cursor.set_position(3);
    assert!(cursor.is_empty());
}

#[test]
fn read_basic() {
    let mut cursor = Cursor::new([1u8, 2, 3, 4, 5]);
    let mut buf = [0u8; 3];
    assert_eq!(cursor.read(&mut buf).unwrap(), 3);
    assert_eq!(buf, [1, 2, 3]);
    assert_eq!(cursor.position(), 3);

    assert_eq!(cursor.read(&mut buf).unwrap(), 2);
    assert_eq!(buf[..2], [4, 5]);
    assert_eq!(cursor.position(), 5);

    // Reading at end returns 0.
    assert_eq!(cursor.read(&mut buf).unwrap(), 0);
}

#[test]
fn read_single_byte() {
    let mut cursor = Cursor::new([42u8]);
    let mut buf = [0u8; 1];
    assert_eq!(cursor.read(&mut buf).unwrap(), 1);
    assert_eq!(buf[0], 42);
}

#[test]
fn buf_read() {
    let mut cursor = Cursor::new([1u8, 2, 3, 4, 5]);
    assert_eq!(cursor.fill_buf().unwrap(), &[1, 2, 3, 4, 5]);
    cursor.consume(2);
    assert_eq!(cursor.position(), 2);
    assert_eq!(cursor.fill_buf().unwrap(), &[3, 4, 5]);
}

#[test]
fn seek_start() {
    let mut cursor = Cursor::new([1u8, 2, 3, 4, 5]);
    assert_eq!(cursor.seek(SeekFrom::Start(3)).unwrap(), 3);
    assert_eq!(cursor.position(), 3);
}

#[test]
fn seek_end() {
    let mut cursor = Cursor::new([1u8, 2, 3, 4, 5]);
    assert_eq!(cursor.seek(SeekFrom::End(-2)).unwrap(), 3);
    assert_eq!(cursor.position(), 3);

    assert_eq!(cursor.seek(SeekFrom::End(0)).unwrap(), 5);
    assert_eq!(cursor.position(), 5);
}

#[test]
fn seek_current() {
    let mut cursor = Cursor::new([1u8, 2, 3, 4, 5]);
    cursor.set_position(2);
    assert_eq!(cursor.seek(SeekFrom::Current(2)).unwrap(), 4);
    assert_eq!(cursor.position(), 4);

    assert_eq!(cursor.seek(SeekFrom::Current(-1)).unwrap(), 3);
    assert_eq!(cursor.position(), 3);
}

#[test]
fn seek_invalid() {
    let mut cursor = Cursor::new([1u8, 2, 3, 4, 5]);
    // Seeking to negative position.
    assert_eq!(
        cursor.seek(SeekFrom::End(-10)).unwrap_err(),
        CursorError::InvalidSeek
    );
    assert_eq!(
        cursor.seek(SeekFrom::Current(-1)).unwrap_err(),
        CursorError::InvalidSeek
    );
}

#[test]
fn write_to_slice() {
    let mut buf = [0u8; 5];
    let mut cursor = Cursor::new(&mut buf[..]);
    assert_eq!(cursor.write(&[1, 2, 3]).unwrap(), 3);
    assert_eq!(cursor.position(), 3);
    assert_eq!(cursor.write(&[4, 5]).unwrap(), 2);
    assert_eq!(cursor.position(), 5);
    assert_eq!(buf, [1, 2, 3, 4, 5]);
}

#[test]
fn write_slice_full() {
    let mut buf = [0u8; 3];
    let mut cursor = Cursor::new(&mut buf[..]);
    cursor.write_all(&[1, 2, 3]).unwrap();
    assert_eq!(cursor.write(&[4]).unwrap_err(), CursorError::Full);
}

#[test]
fn read_ready() {
    let mut cursor = Cursor::new([1u8, 2, 3]);
    assert!(cursor.read_ready().unwrap());
}

#[test]
fn write_ready_slice() {
    let mut buf = [0u8; 3];
    let mut cursor = Cursor::new(&mut buf[..]);
    assert!(cursor.write_ready().unwrap());
}

#[test]
fn flush() {
    let mut buf = [0u8; 3];
    let mut cursor = Cursor::new(&mut buf[..]);
    assert!(cursor.flush().is_ok());
}

#[test]
fn clone() {
    let cursor = Cursor::new([1u8, 2, 3]);
    let cloned = cursor.clone();
    assert_eq!(cursor.get_ref(), cloned.get_ref());
    assert_eq!(cursor.position(), cloned.position());
}

#[test]
fn default() {
    let cursor: Cursor<[u8; 0]> = Cursor::default();
    assert_eq!(cursor.position(), 0);
    assert_eq!(cursor.get_ref(), &[]);
}

#[test]
fn error_kind() {
    assert_eq!(CursorError::InvalidSeek.kind(), ErrorKind::InvalidInput);
    assert_eq!(CursorError::Full.kind(), ErrorKind::WriteZero);
}

#[test]
fn write_to_vec() {
    let mut cursor = Cursor::new(Vec::new());
    assert_eq!(cursor.write(&[1, 2, 3]).unwrap(), 3);
    assert_eq!(cursor.write(&[4, 5]).unwrap(), 2);
    assert_eq!(cursor.into_inner(), vec![1, 2, 3, 4, 5]);
}

#[test]
fn write_to_vec_with_seek() {
    let mut cursor = Cursor::new(vec![0u8, 0, 0, 0, 0]);
    cursor.set_position(2);
    assert_eq!(cursor.write(&[1, 2, 3]).unwrap(), 3);
    assert_eq!(cursor.into_inner(), vec![0, 0, 1, 2, 3]);
}

#[test]
fn write_to_vec_extend() {
    let mut cursor = Cursor::new(vec![1u8, 2]);
    cursor.set_position(1);
    // Overwrite one byte and extend.
    assert_eq!(cursor.write(&[10, 20, 30]).unwrap(), 3);
    assert_eq!(cursor.into_inner(), vec![1, 10, 20, 30]);
}

#[test]
fn write_to_mut_vec() {
    let mut vec = Vec::new();
    let mut cursor = Cursor::new(&mut vec);
    cursor.write_all(&[1, 2, 3]).unwrap();
    drop(cursor);
    assert_eq!(vec, vec![1, 2, 3]);
}

#[test]
fn write_to_boxed_slice() {
    let mut cursor = Cursor::new(vec![0u8; 5].into_boxed_slice());
    assert_eq!(cursor.write(&[1, 2, 3]).unwrap(), 3);
    assert_eq!(cursor.position(), 3);
    assert_eq!(&*cursor.into_inner(), &[1, 2, 3, 0, 0]);
}

#[test]
fn write_boxed_slice_full() {
    let mut cursor = Cursor::new(vec![0u8; 2].into_boxed_slice());
    cursor.write_all(&[1, 2]).unwrap();
    assert_eq!(cursor.write(&[3]).unwrap_err(), CursorError::Full);
}

#[test]
fn write_ready_vec() {
    let mut cursor = Cursor::new(Vec::new());
    assert!(cursor.write_ready().unwrap());
}

#[test]
fn write_ready_boxed_slice() {
    let mut cursor = Cursor::new(Box::<[u8]>::from(vec![0u8; 3]));
    assert!(cursor.write_ready().unwrap());
}

#[test]
fn read_from_vec() {
    let mut cursor = Cursor::new(vec![1u8, 2, 3]);
    let mut buf = [0u8; 2];
    assert_eq!(cursor.read(&mut buf).unwrap(), 2);
    assert_eq!(buf, [1, 2]);
}

#[test]
fn read_from_boxed_slice() {
    let mut cursor = Cursor::new(vec![1u8, 2, 3].into_boxed_slice());
    let mut buf = [0u8; 2];
    assert_eq!(cursor.read(&mut buf).unwrap(), 2);
    assert_eq!(buf, [1, 2]);
}

#[test]
fn error_display() {
    assert!(!CursorError::InvalidSeek.message().is_empty());
    assert!(!CursorError::Full.message().is_empty());
}

#[test]
fn seek_helpers_follow_the_position() {
    let mut c = Cursor::new([0u8; 10]);
    assert_eq!(c.seek(SeekFrom::Start(4)).unwrap(), 4);
    c.seek_relative(3).unwrap();
    assert_eq!(c.stream_position().unwrap(), 7);
    assert_eq!(c.seek_relative(-8), Err(CursorError::InvalidSeek));
    assert_eq!(c.stream_position().unwrap(), 7);
    c.rewind().unwrap();
    assert_eq!(c.stream_position().unwrap(), 0);
    assert_eq!(c.seek(SeekFrom::End(-1)).unwrap(), 9);
}
