use verotype::buffer::VeroBufReader;
use verotype::tables::{OffsetTable, TableEncodingError};
use verotype::VeroTypeError;

#[test]
fn the_header_is_decoded_field_for_field() {
    let bytes = [0x00u8, 0x01, 0x00, 0x00, 0x00, 0x03, 0x00, 0x10, 0x00, 0x00, 0x00, 0x00];
    let header = OffsetTable::from_buffer(&bytes).unwrap();
    assert_eq!(header.scalar_type(), 0x0001_0000);
    assert_eq!(header.num_tables(), 3);
    assert_eq!(header.search_range(), 0x0010);
    assert_eq!(header.entry_selector(), 0);
    assert_eq!(header.range_shift(), 0);
}

#[test]
fn each_field_comes_from_its_own_bytes() {
    let bytes = [0x74u8, 0x72, 0x75, 0x65, 0x01, 0x02, 0x03, 0x04, 0x05, 0x06, 0x07, 0x08];
    let header = OffsetTable::from_buffer(&bytes).unwrap();
    assert_eq!(header.scalar_type(), 0x7472_7565);
    assert_eq!(header.num_tables(), 0x0102);
    assert_eq!(header.search_range(), 0x0304);
    assert_eq!(header.entry_selector(), 0x0506);
    assert_eq!(header.range_shift(), 0x0708);
}

#[test]
fn decoding_and_encoding_again_gives_the_same_bytes() {
    let samples: [[u8; 12]; 4] = [
        [0x00, 0x01, 0x00, 0x00, 0x00, 0x03, 0x00, 0x10, 0x00, 0x00, 0x00, 0x00],
        [0x74, 0x72, 0x75, 0x65, 0x00, 0x0a, 0x00, 0x80, 0x00, 0x03, 0x00, 0x20],
        [0xff; 12],
        [0x00; 12],
    ];
    for bytes in samples {
        let header = OffsetTable::from_buffer(&bytes).unwrap();
        assert_eq!(header.to_bytes(), bytes.to_vec());
        let again = OffsetTable::from_buffer(&header.to_bytes()).unwrap();
        assert_eq!(again, header);
    }
}

#[test]
fn a_header_of_another_length_is_refused() {
    assert_eq!(
        OffsetTable::from_buffer(&[0u8; 11]),
        Err(TableEncodingError::InvalidBufferLength(12, 11))
    );
    assert_eq!(
        OffsetTable::from_buffer(&[0u8; 13]),
        Err(TableEncodingError::InvalidBufferLength(12, 13))
    );
    assert_eq!(
        OffsetTable::from_buffer(&[]),
        Err(TableEncodingError::InvalidBufferLength(12, 0))
    );
}

#[test]
fn the_header_is_read_from_the_start_of_the_source() {
    let mut data = vec![0x00u8, 0x01, 0x00, 0x00, 0x00, 0x02, 0x00, 0x20, 0x00, 0x01, 0x00, 0x00];
    data.extend_from_slice(&[0xaa; 20]);
    let mut reader = VeroBufReader::from_buffer(data);
    reader.seek_to(17).unwrap();
    let header = OffsetTable::from_reader(&mut reader).unwrap();
    assert_eq!(header.scalar_type(), 0x0001_0000);
    assert_eq!(header.num_tables(), 2);
    assert_eq!(header.search_range(), 0x20);
    assert_eq!(header.entry_selector(), 1);
    assert_eq!(header.range_shift(), 0);
    assert_eq!(reader.position(), 12);
}

#[test]
fn a_source_shorter_than_the_header_is_refused_for_its_length() {
    let mut reader = VeroBufReader::from_buffer(vec![0, 1, 0, 0, 0]);
    assert_eq!(
        OffsetTable::from_reader(&mut reader),
        Err(VeroTypeError::TableEncodingError(TableEncodingError::InvalidBufferLength(12, 5)))
    );
    assert_eq!(reader.position(), 5);
    let mut empty = VeroBufReader::from_buffer(Vec::new());
    assert_eq!(
        OffsetTable::from_reader(&mut empty),
        Err(VeroTypeError::TableEncodingError(TableEncodingError::InvalidBufferLength(12, 0)))
    );
}
