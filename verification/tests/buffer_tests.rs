use verotype::buffer::{VeroBufReader, VeroBufReaderError};

#[test]
fn seek_to_moves_to_a_place_counted_from_the_start() {
    let data = vec![0, 0, 0, 10, 0, 0, 0, 20];
    let mut reader = VeroBufReader::from_buffer(data);
    reader.seek_to(4).unwrap();
    let second_value = reader.read_u32().unwrap();
    assert_eq!(second_value, 20);
    assert_eq!(reader.position(), 8);
}

#[test]
fn skip_moves_from_where_the_cursor_stands() {
    let data = vec![0, 0, 0, 10, 0, 0, 0, 20];
    let mut reader = VeroBufReader::from_buffer(data);
    let first_value = reader.read_u32().unwrap();
    assert_eq!(first_value, 10);
    reader.skip(4).unwrap();
    assert_eq!(reader.read_u32(), Err(VeroBufReaderError::ReadError));
}

#[test]
fn read_exact_fills_the_buffer_and_moves_on() {
    let data = vec![10, 20, 30, 40, 50];
    let mut reader = VeroBufReader::from_buffer(data);

    let mut buffer = [0u8; 3];
    let result = reader.read_exact(&mut buffer);
    assert!(result.is_ok());
    assert_eq!(buffer, [10, 20, 30]);

    let mut another_buffer = [0u8; 2];
    let result = reader.read_exact(&mut another_buffer);
    assert!(result.is_ok());
    assert_eq!(another_buffer, [40, 50]);

    let mut end_buffer = [0u8; 1];
    let result = reader.read_exact(&mut end_buffer);
    assert!(result.is_err());
}

#[test]
fn a_failed_read_changes_nothing() {
    let mut reader = VeroBufReader::from_buffer(vec![1, 2, 3]);
    reader.seek_to(1).unwrap();
    let mut buffer = [7u8; 3];
    assert_eq!(reader.read_exact(&mut buffer), Err(VeroBufReaderError::ReadError));
    assert_eq!(buffer, [7, 7, 7]);
    assert_eq!(reader.position(), 1);
    assert_eq!(reader.remaining(), 2);
    assert_eq!(reader.read_bytes(3), Err(VeroBufReaderError::ReadError));
    assert_eq!(reader.position(), 1);
    assert_eq!(reader.read_bytes(2), Ok(vec![2, 3]));
    assert_eq!(reader.position(), 3);
}

#[test]
fn a_new_reader_stands_on_the_first_byte() {
    let reader = VeroBufReader::from_buffer(vec![5, 6, 7, 8]);
    assert_eq!(reader.position(), 0);
    assert_eq!(reader.remaining(), 4);
    let empty = VeroBufReader::from_buffer(Vec::new());
    assert_eq!(empty.position(), 0);
    assert_eq!(empty.remaining(), 0);
}

#[test]
fn a_place_beyond_the_end_is_accepted_and_holds_nothing() {
    let mut reader = VeroBufReader::from_buffer(vec![1, 2, 3]);
    assert_eq!(reader.seek_to(10), Ok(()));
    assert_eq!(reader.position(), 10);
    assert_eq!(reader.remaining(), 0);
    assert_eq!(reader.read_u8(), Err(VeroBufReaderError::ReadError));
    assert_eq!(reader.read_bytes(0), Ok(Vec::new()));
    let mut nothing: [u8; 0] = [];
    assert_eq!(reader.read_exact(&mut nothing), Ok(()));
    assert_eq!(reader.read_up_to(4), Vec::<u8>::new());
    assert_eq!(reader.position(), 10);
    assert_eq!(reader.seek_to(u64::MAX), Ok(()));
    assert_eq!(reader.position(), u64::MAX);
    assert_eq!(reader.remaining(), 0);
}

#[test]
fn skip_goes_backwards_too() {
    let mut reader = VeroBufReader::from_buffer(vec![1, 2, 3, 4]);
    reader.seek_to(3).unwrap();
    assert_eq!(reader.skip(-2), Ok(()));
    assert_eq!(reader.position(), 1);
    assert_eq!(reader.read_u8(), Ok(2));
    assert_eq!(reader.skip(0), Ok(()));
    assert_eq!(reader.position(), 2);
}

#[test]
fn skip_refuses_a_place_before_the_start() {
    let mut reader = VeroBufReader::from_buffer(vec![1, 2, 3, 4]);
    reader.seek_to(2).unwrap();
    assert_eq!(reader.skip(-3), Err(VeroBufReaderError::FailedToSeek));
    assert_eq!(reader.position(), 2);
    assert_eq!(reader.skip(-2), Ok(()));
    assert_eq!(reader.position(), 0);
    assert_eq!(reader.skip(i64::MIN), Err(VeroBufReaderError::FailedToSeek));
    assert_eq!(reader.position(), 0);
}

#[test]
fn skip_refuses_a_place_beyond_the_largest_position() {
    let mut reader = VeroBufReader::from_buffer(vec![1, 2, 3, 4]);
    reader.seek_to(u64::MAX - 1).unwrap();
    assert_eq!(reader.skip(2), Err(VeroBufReaderError::FailedToSeek));
    assert_eq!(reader.position(), u64::MAX - 1);
    assert_eq!(reader.skip(1), Ok(()));
    assert_eq!(reader.position(), u64::MAX);
    assert_eq!(reader.skip(i64::MAX), Err(VeroBufReaderError::FailedToSeek));
}

#[test]
fn read_up_to_stops_at_the_end() {
    let mut reader = VeroBufReader::from_buffer(vec![1, 2, 3, 4, 5]);
    assert_eq!(reader.read_up_to(2), vec![1, 2]);
    assert_eq!(reader.position(), 2);
    assert_eq!(reader.read_up_to(10), vec![3, 4, 5]);
    assert_eq!(reader.position(), 5);
    assert_eq!(reader.read_up_to(10), Vec::<u8>::new());
    assert_eq!(reader.position(), 5);
}

#[test]
fn scalars_are_read_big_endian() {
    let data = vec![0xff, 0x7f, 0x80, 0x00, 0x12, 0x34, 0xff, 0xff, 0xff, 0xfe, 0x00, 0x01, 0x00, 0x00];
    let mut reader = VeroBufReader::from_buffer(data);
    assert_eq!(reader.read_i8(), Ok(-1));
    assert_eq!(reader.read_u8(), Ok(0x7f));
    assert_eq!(reader.read_i16(), Ok(i16::MIN));
    assert_eq!(reader.read_u16(), Ok(0x1234));
    assert_eq!(reader.read_i32(), Ok(-2));
    assert_eq!(reader.read_u32(), Ok(0x0001_0000));
    assert_eq!(reader.position(), 14);
    assert_eq!(reader.read_u8(), Err(VeroBufReaderError::ReadError));
}

#[test]
fn a_scalar_that_is_cut_short_is_not_read() {
    let mut reader = VeroBufReader::from_buffer(vec![1, 2, 3]);
    assert_eq!(reader.read_u32(), Err(VeroBufReaderError::ReadError));
    assert_eq!(reader.read_i32(), Err(VeroBufReaderError::ReadError));
    assert_eq!(reader.position(), 0);
    assert_eq!(reader.read_u16(), Ok(0x0102));
    assert_eq!(reader.read_u16(), Err(VeroBufReaderError::ReadError));
    assert_eq!(reader.read_i16(), Err(VeroBufReaderError::ReadError));
    assert_eq!(reader.position(), 2);
    assert_eq!(reader.read_i8(), Ok(3));
    assert_eq!(reader.read_i8(), Err(VeroBufReaderError::ReadError));
}
