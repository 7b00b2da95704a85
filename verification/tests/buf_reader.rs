use embedded_hal_io::buf_reader::BufReader;
use embedded_hal_io::io::{BufRead, Read};

#[test]
fn bufread_consume_removes_bytes() {
    let reader = [0u8, 1, 2, 3];

    let mut buf_read: BufReader<4, &[u8]> = BufReader::new(&reader);

    // read bytes
    let current_buff = buf_read.fill_buf().unwrap();

    assert_eq!(current_buff, [0, 1, 2, 3]);

    // consume bytes
    buf_read.consume(2);

    assert_eq!(buf_read.fill_buf().unwrap(), [2, 3]);
}

#[test]
fn bufreader_reads_through_small_buffer() {
    let reader = [5u8, 6, 7, 8, 9];
    let mut buf_read: BufReader<2, &[u8]> = BufReader::new(&reader);
    let mut out = [0u8; 3];
    assert_eq!(buf_read.read(&mut out).unwrap(), 2);
    assert_eq!(out[..2], [5, 6]);
    assert_eq!(buf_read.read(&mut out).unwrap(), 2);
    assert_eq!(out[..2], [7, 8]);
    assert_eq!(buf_read.read(&mut out).unwrap(), 1);
    assert_eq!(out[0], 9);
    assert_eq!(buf_read.read(&mut out).unwrap(), 0);
    assert_eq!(buf_read.capacity(), 2);
}

#[test]
fn bufreader_buffer_shows_unconsumed_bytes() {
    let reader = [0u8, 1, 2, 3];
    let mut r: BufReader<4, &[u8]> = BufReader::new(&reader);
    assert!(r.buffer().is_empty());
    assert_eq!(r.fill_buf().unwrap(), [0, 1, 2, 3]);
    r.consume(2);
    assert_eq!(r.buffer(), &[2, 3]);
    // Buffered bytes are handed out without reading the inner reader again.
    assert_eq!(r.fill_buf().unwrap(), [2, 3]);
    assert_eq!(r.get_ref().len(), 0);
}

#[test]
fn bufreader_read_exact_spans_buffer_and_inner_reader() {
    let reader = [1u8, 2, 3, 4, 5, 6, 7];
    let mut buf_read: BufReader<3, &[u8]> = BufReader::new(&reader);
    let mut first = [0u8; 1];
    buf_read.read_exact(&mut first).unwrap();
    assert_eq!(first, [1]);
    let mut rest = [0u8; 5];
    buf_read.read_exact(&mut rest).unwrap();
    assert_eq!(rest, [2, 3, 4, 5, 6]);
    let mut too_many = [0u8; 2];
    assert!(buf_read.read_exact(&mut too_many).is_err());
}
