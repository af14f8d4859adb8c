use verotype::buffer::{VeroBufReader, VeroBufReaderError};
use verotype::tables::head::{Head, HeadFlags};
use verotype::tables::{TableEncodingError, TableMetadata};
use verotype::VeroTypeError;

fn sample_head(flags: u16) -> Vec<u8> {
    let mut bytes = Vec::new();
    bytes.extend_from_slice(&0x0001_0000u32.to_be_bytes());
    bytes.extend_from_slice(&0x0002_8000u32.to_be_bytes());
    bytes.extend_from_slice(&0x1234_5678u32.to_be_bytes());
    bytes.extend_from_slice(&0x5f0f_3cf5u32.to_be_bytes());
    bytes.extend_from_slice(&flags.to_be_bytes());
    bytes.extend_from_slice(&2048u16.to_be_bytes());
    bytes.extend_from_slice(&3_000_000_000i64.to_be_bytes());
    bytes.extend_from_slice(&(-5i64).to_be_bytes());
    bytes.extend_from_slice(&(-100i16).to_be_bytes());
    bytes.extend_from_slice(&(-200i16).to_be_bytes());
    bytes.extend_from_slice(&1000i16.to_be_bytes());
    bytes.extend_from_slice(&900i16.to_be_bytes());
    bytes.extend_from_slice(&0x0003u16.to_be_bytes());
    bytes.extend_from_slice(&8u16.to_be_bytes());
    bytes.extend_from_slice(&2i16.to_be_bytes());
    bytes.extend_from_slice(&1i16.to_be_bytes());
    bytes.extend_from_slice(&(-7i16).to_be_bytes());
    bytes
}

fn location(offset: u32, length: u32) -> TableMetadata {
    let mut bytes = b"head".to_vec();
    bytes.extend_from_slice(&0u32.to_be_bytes());
    bytes.extend_from_slice(&offset.to_be_bytes());
    bytes.extend_from_slice(&length.to_be_bytes());
    TableMetadata::from_buffer(&bytes).unwrap()
}

fn predicates(flags: HeadFlags) -> [bool; 13] {
    [
        flags.y_value_zero_is_baseline(),
        flags.x_pos_leftmost_black_bit_lsb(),
        flags.scaled_point_size_differs(),
        flags.use_integer_scaling(),
        flags.microsoft_scaler_flag(),
        flags.vertical_layout(),
        flags.must_be_zero(),
        flags.requires_linguistic_layout(),
        flags.aat_default_metamorphosis(),
        flags.strong_rtl_glyphs(),
        flags.indic_rearrangement(),
        flags.generic_symbol_font(),
        flags.reserved(),
    ]
}

#[test]
fn the_sample_is_fifty_four_bytes() {
    assert_eq!(sample_head(0).len(), 54);
}

#[test]
fn flags_three_set_the_first_two_facts_and_no_other() {
    let head = Head::from_buffer(&sample_head(0x0003)).unwrap();
    let flags = head.flags();
    assert_eq!(flags.bits(), 0x0003);
    assert!(flags.y_value_zero_is_baseline());
    assert!(flags.x_pos_leftmost_black_bit_lsb());
    assert!(!flags.scaled_point_size_differs());
    assert!(!flags.use_integer_scaling());
    assert!(!flags.microsoft_scaler_flag());
    assert!(!flags.vertical_layout());
    assert!(!flags.must_be_zero());
    assert!(!flags.requires_linguistic_layout());
    assert!(!flags.aat_default_metamorphosis());
    assert!(!flags.strong_rtl_glyphs());
    assert!(!flags.indic_rearrangement());
    assert_eq!(flags.adobe_defined(), 0);
    assert!(!flags.generic_symbol_font());
    assert!(!flags.reserved());
}

#[test]
fn the_two_formats_come_from_their_own_bytes() {
    let head = Head::from_buffer(&sample_head(0x0003)).unwrap();
    assert_eq!(head.index_to_loc_format(), 1);
    assert_eq!(head.glyph_data_format(), -7);
    let mut bytes = sample_head(0x0003);
    bytes[50] = 0x00;
    bytes[51] = 0x00;
    bytes[52] = 0x00;
    bytes[53] = 0x05;
    let head = Head::from_buffer(&bytes).unwrap();
    assert_eq!(head.index_to_loc_format(), 0);
    assert_eq!(head.glyph_data_format(), 5);
}

#[test]
fn every_field_of_the_sample_is_decoded() {
    let head = Head::from_buffer(&sample_head(0x0003)).unwrap();
    assert_eq!(head.version(), 0x0001_0000);
    assert_eq!(head.font_revision(), 0x0002_8000);
    assert_eq!(head.checksum_adjustment(), 0x1234_5678);
    assert_eq!(head.magic_number(), 0x5f0f_3cf5);
    assert_eq!(head.flags().bits(), 0x0003);
    assert_eq!(head.units_per_em(), 2048);
    assert_eq!(head.created(), 3_000_000_000);
    assert_eq!(head.modified(), -5);
    assert_eq!(head.x_min(), -100);
    assert_eq!(head.y_min(), -200);
    assert_eq!(head.x_max(), 1000);
    assert_eq!(head.y_max(), 900);
    assert_eq!(head.mac_style(), 3);
    assert_eq!(head.lowest_rec_ppem(), 8);
    assert_eq!(head.font_direction_hint(), 2);
    assert_eq!(head.index_to_loc_format(), 1);
    assert_eq!(head.glyph_data_format(), -7);
}

#[test]
fn each_field_sits_at_its_own_place() {
    let bytes: Vec<u8> = (0u8..54).collect();
    let head = Head::from_buffer(&bytes).unwrap();
    assert_eq!(head.version(), 0x0001_0203);
    assert_eq!(head.font_revision(), 0x0405_0607);
    assert_eq!(head.checksum_adjustment(), 0x0809_0a0b);
    assert_eq!(head.magic_number(), 0x0c0d_0e0f);
    assert_eq!(head.flags().bits(), 0x1011);
    assert_eq!(head.units_per_em(), 0x1213);
    assert_eq!(head.created(), 0x1415_1617_1819_1a1b);
    assert_eq!(head.modified(), 0x1c1d_1e1f_2021_2223);
    assert_eq!(head.x_min(), 0x2425);
    assert_eq!(head.y_min(), 0x2627);
    assert_eq!(head.x_max(), 0x2829);
    assert_eq!(head.y_max(), 0x2a2b);
    assert_eq!(head.mac_style(), 0x2c2d);
    assert_eq!(head.lowest_rec_ppem(), 0x2e2f);
    assert_eq!(head.font_direction_hint(), 0x3031);
    assert_eq!(head.index_to_loc_format(), 0x3233);
    assert_eq!(head.glyph_data_format(), 0x3435);
}

#[test]
fn the_magic_number_is_not_judged() {
    let mut bytes = sample_head(0);
    bytes[12] = 0;
    bytes[13] = 0;
    bytes[14] = 0;
    bytes[15] = 0;
    let head = Head::from_buffer(&bytes).unwrap();
    assert_eq!(head.magic_number(), 0);
}

#[test]
fn each_bit_sets_its_own_fact() {
    let places: [u16; 13] = [0, 1, 2, 3, 4, 5, 6, 7, 8, 9, 10, 14, 15];
    for (which, place) in places.iter().enumerate() {
        let flags = HeadFlags::from_bits(1 << place);
        let mut expected = [false; 13];
        expected[which] = true;
        assert_eq!(predicates(flags), expected);
        assert_eq!(flags.adobe_defined(), 0);
        assert_eq!(flags.bits(), 1 << place);
    }
}

#[test]
fn the_adobe_bits_are_a_number_of_three_bits() {
    assert_eq!(HeadFlags::from_bits(0x0800).adobe_defined(), 1);
    assert_eq!(HeadFlags::from_bits(0x1000).adobe_defined(), 2);
    assert_eq!(HeadFlags::from_bits(0x2000).adobe_defined(), 4);
    assert_eq!(HeadFlags::from_bits(0x2800).adobe_defined(), 5);
    assert_eq!(HeadFlags::from_bits(0x3800).adobe_defined(), 7);
    assert_eq!(HeadFlags::from_bits(0xc7ff).adobe_defined(), 0);
    assert_eq!(predicates(HeadFlags::from_bits(0x3800)), [false; 13]);
    assert_eq!(HeadFlags::from_bits(0xffff).adobe_defined(), 7);
    assert_eq!(predicates(HeadFlags::from_bits(0xffff)), [true; 13]);
    assert_eq!(predicates(HeadFlags::from_bits(0)), [false; 13]);
}

#[test]
fn a_table_of_fewer_than_fifty_four_bytes_is_refused() {
    assert_eq!(
        Head::from_buffer(&sample_head(0)[..53]),
        Err(TableEncodingError::InvalidBufferLength(54, 53))
    );
    assert_eq!(Head::from_buffer(&[]), Err(TableEncodingError::InvalidBufferLength(54, 0)));
}

#[test]
fn what_follows_the_fields_is_not_looked_at() {
    let mut bytes = sample_head(0x0003);
    let plain = Head::from_buffer(&bytes).unwrap();
    bytes.extend_from_slice(&[0xff; 10]);
    assert_eq!(Head::from_buffer(&bytes), Ok(plain));
}

#[test]
fn the_head_table_is_read_from_the_place_the_location_gives() {
    let mut data = vec![0xaau8; 44];
    data.extend_from_slice(&sample_head(0x0003));
    data.extend_from_slice(&[0xbb; 7]);
    let mut reader = VeroBufReader::from_buffer(data);
    let head = Head::from_reader(&mut reader, &location(44, 54)).unwrap();
    assert_eq!(reader.position(), 98);
    assert_eq!(head, Head::from_buffer(&sample_head(0x0003)).unwrap());
    assert_eq!(head.version(), 0x0001_0000);
    assert_eq!(head.glyph_data_format(), -7);
    let shifted = Head::from_reader(&mut reader, &location(43, 54)).unwrap();
    assert_eq!(shifted.version(), 0xaa00_0100);
}

#[test]
fn a_head_table_that_the_source_does_not_hold_fails_the_read() {
    let mut data = vec![0xaau8; 44];
    data.extend_from_slice(&sample_head(0x0003));
    let mut reader = VeroBufReader::from_buffer(data);
    assert_eq!(
        Head::from_reader(&mut reader, &location(45, 54)),
        Err(VeroTypeError::VeroBufReaderError(VeroBufReaderError::ReadError))
    );
    assert_eq!(reader.position(), 45);
    assert_eq!(
        Head::from_reader(&mut reader, &location(1000, 54)),
        Err(VeroTypeError::VeroBufReaderError(VeroBufReaderError::ReadError))
    );
    assert_eq!(
        Head::from_reader(&mut reader, &location(0, u32::MAX)),
        Err(VeroTypeError::VeroBufReaderError(VeroBufReaderError::ReadError))
    );
    assert_eq!(
        Head::from_reader(&mut reader, &location(u32::MAX, u32::MAX)),
        Err(VeroTypeError::VeroBufReaderError(VeroBufReaderError::ReadError))
    );
}

#[test]
fn a_region_too_short_for_the_table_is_refused_for_its_length() {
    let mut data = vec![0xaau8; 44];
    data.extend_from_slice(&sample_head(0x0003));
    let mut reader = VeroBufReader::from_buffer(data);
    assert_eq!(
        Head::from_reader(&mut reader, &location(44, 53)),
        Err(VeroTypeError::TableEncodingError(TableEncodingError::InvalidBufferLength(54, 53)))
    );
    assert_eq!(reader.position(), 97);
    assert_eq!(
        Head::from_reader(&mut reader, &location(500, 0)),
        Err(VeroTypeError::TableEncodingError(TableEncodingError::InvalidBufferLength(54, 0)))
    );
    assert_eq!(reader.position(), 500);
}
