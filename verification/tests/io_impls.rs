use core::fmt::Write as _;
use std::collections::VecDeque;

use embedded_hal_io::adapters::digest::ToDigest;
use embedded_hal_io::adapters::fmt::ToFmt;
use embedded_hal_io::adapters::std_io::{std_read_exact_outcome, std_write_error, std_write_outcome, ToStd};
use embedded_hal_io::adapters::unblock::{deliver_read, read_into_scratch};
use embedded_hal_io::cursor::Cursor;
use embedded_hal_io::io::{
    BufRead, Error, ErrorKind, Read, ReadExactError, SeekFrom, SliceWriteError, Write,
    WriteFmtError, write_fmt_outcome,
};
use embedded_hal_io::std_io::to_std_error;

#[test]
fn slice_reader_advances() {
    let data = [1u8, 2, 3, 4, 5];
    let mut reader: &[u8] = &data;
    let mut buf = [0u8; 2];
    assert_eq!(reader.read(&mut buf).unwrap(), 2);
    assert_eq!(buf, [1, 2]);
    assert_eq!(reader, &[3, 4, 5]);
    let mut exact = [0u8; 4];
    assert_eq!(reader.read_exact(&mut exact), Err(ReadExactError::UnexpectedEof));
    assert_eq!(reader, &[3, 4, 5]);
    assert_eq!(reader.fill_buf().unwrap(), &[3, 4, 5]);
    reader.consume(1);
    assert_eq!(reader, &[4, 5]);
}

#[test]
fn slice_writer_fills_then_reports_full() {
    let mut storage = [0u8; 4];
    let mut writer: &mut [u8] = &mut storage;
    assert_eq!(writer.write(&[7, 8, 9]).unwrap(), 3);
    assert_eq!(writer.write(&[10, 11]).unwrap(), 1);
    assert_eq!(writer.write(&[12]), Err(SliceWriteError::Full));
    assert_eq!(writer.write(&[]).unwrap(), 0);
    assert_eq!(storage, [7, 8, 9, 10]);
    assert_eq!(SliceWriteError::Full.kind(), ErrorKind::WriteZero);
}

#[test]
fn deque_is_first_in_first_out() {
    let mut q: VecDeque<u8> = VecDeque::new();
    q.write_all(&[1, 2, 3]).unwrap();
    q.write(&[4, 5]).unwrap();
    let mut buf = [0u8; 2];
    assert_eq!(q.read(&mut buf).unwrap(), 2);
    assert_eq!(buf, [1, 2]);
    let mut rest = [0u8; 3];
    q.read_exact(&mut rest).unwrap();
    assert_eq!(rest, [3, 4, 5]);
    assert!(q.is_empty());
    assert_eq!(q.read_exact(&mut rest), Err(ReadExactError::UnexpectedEof));
}

#[test]
fn deque_read_exact_across_wrap() {
    let mut q: VecDeque<u8> = VecDeque::with_capacity(4);
    q.write_all(&[1, 2, 3]).unwrap();
    let mut two = [0u8; 2];
    q.read_exact(&mut two).unwrap();
    q.write_all(&[4, 5, 6]).unwrap();
    let mut four = [0u8; 4];
    q.read_exact(&mut four).unwrap();
    assert_eq!(four, [3, 4, 5, 6]);
}

#[test]
fn formatted_write_outcomes() {
    let outcome: Result<(), WriteFmtError<SliceWriteError>> = write_fmt_outcome(Err(core::fmt::Error), Ok(()));
    assert_eq!(outcome, Err(WriteFmtError::FmtError));
    assert_eq!(
        write_fmt_outcome(Err(core::fmt::Error), Err(SliceWriteError::Full)),
        Err(WriteFmtError::Other(SliceWriteError::Full))
    );
    assert_eq!(write_fmt_outcome::<SliceWriteError>(Ok(()), Ok(())), Ok(()));
}

#[test]
fn fmt_adapter_writes_text() {
    let mut out = ToFmt::new(VecDeque::new());
    out.write_str("4-").unwrap();
    out.write_str("x").unwrap();
    assert_eq!(out.into_inner().iter().copied().collect::<Vec<u8>>(), b"4-x".to_vec());

    let mut small = [0u8; 2];
    let mut bounded = ToFmt::new(&mut small[..]);
    assert_eq!(bounded.write_str("xyz"), Err(core::fmt::Error));
    assert_eq!(small, *b"xy");
}

#[test]
fn digest_adapter_feeds_writer() {
    let mut sink = ToDigest::new(VecDeque::new());
    sink.update(&[1, 2]);
    sink.update(&[3]);
    assert_eq!(sink.inner().iter().copied().collect::<Vec<u8>>(), vec![1, 2, 3]);
}

#[test]
fn std_adapter_reads_and_writes() {
    let mut std_side = ToStd::new(Cursor::new(vec![1u8, 2, 3]));
    let mut buf = [0u8; 2];
    std::io::Read::read_exact(&mut std_side, &mut buf).unwrap();
    assert_eq!(buf, [1, 2]);
    let mut too_many = [0u8; 5];
    assert_eq!(
        std::io::Read::read_exact(&mut std_side, &mut too_many).unwrap_err().kind(),
        std::io::ErrorKind::UnexpectedEof
    );
    assert_eq!(std::io::Seek::seek(&mut std_side, std::io::SeekFrom::Start(1)).unwrap(), 1);
    std::io::Write::write_all(&mut std_side, &[9, 9, 9]).unwrap();
    assert_eq!(std::io::Seek::stream_position(&mut std_side).unwrap(), 4);
    assert_eq!(std_side.into_inner().into_inner(), vec![1, 9, 9, 9]);

    let mut storage = [0u8; 1];
    let mut full = ToStd::new(Cursor::new(&mut storage[..]));
    assert_eq!(std::io::Write::write(&mut full, &[5, 6]).unwrap(), 1);
    assert_eq!(std::io::Write::write(&mut full, &[7]).unwrap(), 0);
}

#[test]
fn std_conversions() {
    assert_eq!(std::io::ErrorKind::from(ErrorKind::WriteZero), std::io::ErrorKind::WriteZero);
    assert_eq!(std::io::ErrorKind::from(ErrorKind::Other), std::io::ErrorKind::Other);
    assert_eq!(ErrorKind::from(std::io::ErrorKind::TimedOut), ErrorKind::TimedOut);
    assert_eq!(ErrorKind::from(std::io::ErrorKind::UnexpectedEof), ErrorKind::Other);
    assert_eq!(std::io::SeekFrom::from(SeekFrom::End(-3)), std::io::SeekFrom::End(-3));
    assert_eq!(SeekFrom::from(std::io::SeekFrom::Current(7)), SeekFrom::Current(7));
    let err = to_std_error(ErrorKind::BrokenPipe);
    assert_eq!(err.kind(), std::io::ErrorKind::BrokenPipe);
    assert_eq!(Error::kind(&err), ErrorKind::BrokenPipe);
    let eof: std::io::Error = ReadExactError::<std::io::Error>::UnexpectedEof.into();
    assert_eq!(eof.kind(), std::io::ErrorKind::UnexpectedEof);
}

#[test]
fn deliver_read_copies_prefix() {
    let mut buf = [0u8; 4];
    assert_eq!(deliver_read(&mut buf, &[7, 8]), 2);
    assert_eq!(buf, [7, 8, 0, 0]);
}

#[test]
fn std_outcomes() {
    assert_eq!(std_write_outcome(Ok(0), 3).unwrap_err().kind(), std::io::ErrorKind::WriteZero);
    assert_eq!(std_write_outcome(Ok(0), 0).unwrap(), 0);
    assert_eq!(std_write_outcome(Ok(2), 3).unwrap(), 2);
    let eof = std::io::Error::from(std::io::ErrorKind::UnexpectedEof);
    assert!(matches!(std_read_exact_outcome(Err(eof)), Err(ReadExactError::UnexpectedEof)));
    let other = std::io::Error::from(std::io::ErrorKind::TimedOut);
    match std_read_exact_outcome(Err(other)) {
        Err(ReadExactError::Other(e)) => assert_eq!(e.kind(), std::io::ErrorKind::TimedOut),
        _ => panic!("expected the error to be passed on"),
    }
    assert!(std_read_exact_outcome(Ok(())).is_ok());
}

#[test]
fn error_kinds_survive_std_round_trip() {
    let kinds = [
        ErrorKind::Other,
        ErrorKind::NotFound,
        ErrorKind::PermissionDenied,
        ErrorKind::ConnectionRefused,
        ErrorKind::ConnectionReset,
        ErrorKind::ConnectionAborted,
        ErrorKind::NotConnected,
        ErrorKind::AddrInUse,
        ErrorKind::AddrNotAvailable,
        ErrorKind::BrokenPipe,
        ErrorKind::AlreadyExists,
        ErrorKind::InvalidInput,
        ErrorKind::InvalidData,
        ErrorKind::TimedOut,
        ErrorKind::Interrupted,
        ErrorKind::Unsupported,
        ErrorKind::OutOfMemory,
        ErrorKind::WriteZero,
    ];
    for kind in kinds {
        assert_eq!(ErrorKind::from(std::io::ErrorKind::from(kind)), kind);
    }
    for pos in [SeekFrom::Start(3), SeekFrom::End(-1), SeekFrom::Current(0)] {
        assert_eq!(SeekFrom::from(std::io::SeekFrom::from(pos)), pos);
    }
}

#[test]
fn write_all_appends_to_vec_and_deque() {
    let mut v: Vec<u8> = vec![1, 2];
    v.write_all(&[3, 4, 5]).unwrap();
    assert_eq!(v, vec![1, 2, 3, 4, 5]);
    let mut d: VecDeque<u8> = VecDeque::new();
    d.write_all(&[7, 8]).unwrap();
    d.write_all(&[]).unwrap();
    let mut out = [0u8; 2];
    d.read_exact(&mut out).unwrap();
    assert_eq!(out, [7, 8]);
}

#[test]
fn std_write_error_turns_write_zero_into_no_bytes() {
    assert_eq!(std_write_error(ErrorKind::WriteZero, ErrorKind::WriteZero).unwrap(), 0);
    let err = std_write_error(ErrorKind::Other, ErrorKind::Other).unwrap_err();
    assert_eq!(err.kind(), std::io::ErrorKind::Other);
}

#[test]
fn error_kind_message_is_its_name() {
    assert_eq!(ErrorKind::WriteZero.message(), "WriteZero");
    assert_eq!(ErrorKind::Other.message(), "Other");
    assert_eq!(ErrorKind::InvalidInput.message(), format!("{:?}", ErrorKind::InvalidInput));
}

#[test]
fn read_into_scratch_takes_what_one_read_gives() {
    let data = [4u8, 5, 6];
    let mut port: &[u8] = &data;
    assert_eq!(read_into_scratch(&mut port, 2).unwrap(), vec![4, 5]);
    assert_eq!(read_into_scratch(&mut port, 8).unwrap(), vec![6]);
    assert_eq!(read_into_scratch(&mut port, 8).unwrap(), Vec::<u8>::new());
}
