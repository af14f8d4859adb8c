//! The `name` table: the strings that name the font, in many languages
//! and for many platforms.
use crate::buffer::{VeroBufReader, VeroBufReaderError};
use crate::bytes::{copy_range, read_u16_be, u16_be};
use crate::tables::{table_bytes, TableEncodingError, TableMetadata, TableMetadataView};
use crate::{lift, view_of, VeroTypeError};
use vstd::prelude::*;
use vstd::std_specs::convert::FromSpecImpl;

verus! {

/// The platform for which a name is meant.
#[derive(Debug, Clone, Copy, PartialEq, Eq)]
pub enum PlatformId {
    Unicode,
    Macintosh,
    Reserved,
    Microsoft,
    Unknown,
}

impl From<u16> for PlatformId {
    fn from(value: u16) -> (platform: Self) {
        match value {
            0 => PlatformId::Unicode,
            1 => PlatformId::Macintosh,
            2 => PlatformId::Reserved,
            3 => PlatformId::Microsoft,
            _ => PlatformId::Unknown,
        }
    }
}

impl FromSpecImpl<u16> for PlatformId {
    open spec fn obeys_from_spec() -> bool {
        true
    }

    open spec fn from_spec(value: u16) -> Self {
        platform_id_of(value)
    }
}

/// The platform that the number `value` stands for.
pub open spec fn platform_id_of(value: u16) -> PlatformId {
    if value == 0 {
        PlatformId::Unicode
    } else if value == 1 {
        PlatformId::Macintosh
    } else if value == 2 {
        PlatformId::Reserved
    } else if value == 3 {
        PlatformId::Microsoft
    } else {
        PlatformId::Unknown
    }
}

/// The encoding of a name, as the platform numbers it.
#[derive(Debug, Clone, Copy, PartialEq, Eq)]
pub enum PlatformSpecificId {
    Version1,
    Version1_1,
    Iso10646,
    Unicode2_0Bmp,
    Unicode2_0NonBmp,
    Unknown,
}

impl From<u16> for PlatformSpecificId {
    fn from(value: u16) -> (encoding: Self) {
        match value {
            0 => PlatformSpecificId::Version1,
            1 => PlatformSpecificId::Version1_1,
            2 => PlatformSpecificId::Iso10646,
            3 => PlatformSpecificId::Unicode2_0Bmp,
            4 => PlatformSpecificId::Unicode2_0NonBmp,
            _ => PlatformSpecificId::Unknown,
        }
    }
}

impl FromSpecImpl<u16> for PlatformSpecificId {
    open spec fn obeys_from_spec() -> bool {
        true
    }

    open spec fn from_spec(value: u16) -> Self {
        platform_specific_id_of(value)
    }
}

/// The encoding that the number `value` stands for.
pub open spec fn platform_specific_id_of(value: u16) -> PlatformSpecificId {
    if value == 0 {
        PlatformSpecificId::Version1
    } else if value == 1 {
        PlatformSpecificId::Version1_1
    } else if value == 2 {
        PlatformSpecificId::Iso10646
    } else if value == 3 {
        PlatformSpecificId::Unicode2_0Bmp
    } else if value == 4 {
        PlatformSpecificId::Unicode2_0NonBmp
    } else {
        PlatformSpecificId::Unknown
    }
}

/// The format of a name table: 0 is the TrueType format, 1 the OpenType
/// format; any other number is kept as it was read.
#[derive(Debug, Clone, Copy, PartialEq, Eq)]
pub enum TableFormat {
    TrueType,
    OpenType,
    Unknown(u16),
}

impl From<u16> for TableFormat {
    fn from(value: u16) -> (format: Self) {
        match value {
            0 => TableFormat::TrueType,
            1 => TableFormat::OpenType,
            _ => TableFormat::Unknown(value),
        }
    }
}

impl FromSpecImpl<u16> for TableFormat {
    open spec fn obeys_from_spec() -> bool {
        true
    }

    open spec fn from_spec(value: u16) -> Self {
        table_format_of(value)
    }
}

/// The format that the number `value` stands for.
pub open spec fn table_format_of(value: u16) -> TableFormat {
    if value == 0 {
        TableFormat::TrueType
    } else if value == 1 {
        TableFormat::OpenType
    } else {
        TableFormat::Unknown(value)
    }
}

/// What a name record says.
pub struct NameRecordView {
    pub platform_id: PlatformId,
    pub platform_specific_id: PlatformSpecificId,
    pub language_id: u16,
    pub name_id: u16,
    pub length: u16,
    pub offset: u16,
}

/// The record that the twelve bytes of `bytes` from place `at` on spell.
pub open spec fn name_record_of(bytes: Seq<u8>, at: int) -> NameRecordView {
    NameRecordView {
        platform_id: platform_id_of(u16_be(bytes, at)),
        platform_specific_id: platform_specific_id_of(u16_be(bytes, at + 2)),
        language_id: u16_be(bytes, at + 4),
        name_id: u16_be(bytes, at + 6),
        length: u16_be(bytes, at + 8),
        offset: u16_be(bytes, at + 10),
    }
}

/// The outcome of decoding a name record from exactly its twelve bytes.
pub open spec fn decode_name_record(bytes: Seq<u8>) -> Result<NameRecordView, TableEncodingError> {
    if bytes.len() != 12 {
        Err(TableEncodingError::InvalidBufferLength(12, bytes.len() as usize))
    } else {
        Ok(name_record_of(bytes, 0))
    }
}

/// One entry of the name table: for which platform, encoding and language
/// a string is meant, what it names, and where its bytes lie in the string
/// pool of the table. The record does not hold the bytes themselves.
#[derive(Debug, Clone, Copy, PartialEq, Eq)]
pub struct NameRecord {
    platform_id: PlatformId,
    platform_specific_id: PlatformSpecificId,
    language_id: u16,
    name_id: u16,
    length: u16,
    offset: u16,
}

impl View for NameRecord {
    type V = NameRecordView;

    closed spec fn view(&self) -> NameRecordView {
        NameRecordView {
            platform_id: self.platform_id,
            platform_specific_id: self.platform_specific_id,
            language_id: self.language_id,
            name_id: self.name_id,
            length: self.length,
            offset: self.offset,
        }
    }
}

impl NameRecord {
    /// Decodes a record from exactly its twelve bytes.
    pub fn from_buffer(buf: &[u8]) -> (outcome: Result<Self, VeroTypeError>)
        ensures
            view_of(outcome) == lift(decode_name_record(buf@)),
    {
        if buf.len() != 12 {
            return Err(
                VeroTypeError::from(TableEncodingError::InvalidBufferLength(12, buf.len())),
            );
        }
        Ok(NameRecord::read_at(buf, 0))
    }

    /// Decodes the record whose twelve bytes begin at place `at` of `buf`.
    fn read_at(buf: &[u8], at: usize) -> (record: Self)
        requires
            at + 12 <= buf@.len(),
        ensures
            record@ == name_record_of(buf@, at as int),
    {
        assert(buf@.len() == buf.len());
        NameRecord {
            platform_id: PlatformId::from(read_u16_be(buf, at)),
            platform_specific_id: PlatformSpecificId::from(read_u16_be(buf, at + 2)),
            language_id: read_u16_be(buf, at + 4),
            name_id: read_u16_be(buf, at + 6),
            length: read_u16_be(buf, at + 8),
            offset: read_u16_be(buf, at + 10),
        }
    }

    /// The platform for which the string is meant.
    pub fn platform_id(&self) -> (value: PlatformId)
        ensures
            value == self@.platform_id,
    {
        self.platform_id
    }

    /// The encoding of the string, as the platform numbers it.
    pub fn platform_specific_id(&self) -> (value: PlatformSpecificId)
        ensures
            value == self@.platform_specific_id,
    {
        self.platform_specific_id
    }

    /// The language of the string.
    pub fn language_id(&self) -> (value: u16)
        ensures
            value == self@.language_id,
    {
        self.language_id
    }

    /// What the string names: the family, the style, the copyright notice
    /// and so on.
    pub fn name_id(&self) -> (value: u16)
        ensures
            value == self@.name_id,
    {
        self.name_id
    }

    /// The length of the string in bytes.
    pub fn length(&self) -> (value: u16)
        ensures
            value == self@.length,
    {
        self.length
    }

    /// The place of the string's first byte in the string pool.
    pub fn offset(&self) -> (value: u16)
        ensures
            value == self@.offset,
    {
        self.offset
    }
}

/// What a name table says.
pub struct NameView {
    pub format: TableFormat,
    pub count: u16,
    pub string_offset: u16,
    pub name_records: Seq<NameRecordView>,
    pub name: Seq<u8>,
}

/// The place in a name table at which the array of `count` records ends
/// and the string pool begins.
pub open spec fn records_end(count: u16) -> int {
    6 + 12 * count
}

/// The outcome of decoding a name table from `bytes`: six bytes of header,
/// then as many records of twelve bytes as the header announces, then the
/// string pool, which is all that is left.
pub open spec fn decode_name(bytes: Seq<u8>) -> Result<NameView, TableEncodingError> {
    if bytes.len() < 6 {
        Err(TableEncodingError::InvalidBufferLength(6, bytes.len() as usize))
    } else if records_end(u16_be(bytes, 2)) > bytes.len() {
        Err(
            TableEncodingError::RecordsOutOfBounds(
                records_end(u16_be(bytes, 2)) as usize,
                bytes.len() as usize,
            ),
        )
    } else {
        Ok(
            NameView {
                format: table_format_of(u16_be(bytes, 0)),
                count: u16_be(bytes, 2),
                string_offset: u16_be(bytes, 4),
                name_records: Seq::new(
                    u16_be(bytes, 2) as nat,
                    |index: int| name_record_of(bytes, 6 + 12 * index),
                ),
                name: bytes.subrange(records_end(u16_be(bytes, 2)), bytes.len() as int),
            },
        )
    }
}

/// The outcome of decoding the name table that lies at `location` in
/// `file`: the read fails where the file does not hold the whole region.
pub open spec fn name_at(file: Seq<u8>, location: TableMetadataView) -> Result<
    NameView,
    VeroTypeError,
> {
    match table_bytes(file, location) {
        Some(region) => lift(decode_name(region)),
        None => Err(VeroTypeError::VeroBufReaderError(VeroBufReaderError::ReadError)),
    }
}

/// The bytes in `pool` that a record with the given `offset` and `length`
/// addresses, where the pool holds them all.
pub open spec fn addressed(pool: Seq<u8>, offset: u16, length: u16) -> Option<Seq<u8>> {
    if offset + length <= pool.len() {
        Some(pool.subrange(offset as int, offset + length))
    } else {
        None
    }
}

/// The name table: its records in file order and the string pool that
/// they address.
#[derive(Debug, PartialEq, Eq)]
pub struct Name {
    format: TableFormat,
    count: u16,
    string_offset: u16,
    name_records: Vec<NameRecord>,
    name: Vec<u8>,
}

impl View for Name {
    type V = NameView;

    closed spec fn view(&self) -> NameView {
        NameView {
            format: self.format,
            count: self.count,
            string_offset: self.string_offset,
            name_records: self.name_records@.map_values(|record: NameRecord| record@),
            name: self.name@,
        }
    }
}

impl Name {
    /// Decodes the table from its bytes.
    pub fn from_buffer(buf: &[u8]) -> (outcome: Result<Self, TableEncodingError>)
        ensures
            view_of(outcome) == decode_name(buf@),
    {
        let total: usize = buf.len();
        if total < 6 {
            return Err(TableEncodingError::InvalidBufferLength(6, total));
        }
        let format: u16 = read_u16_be(buf, 0);
        let count: u16 = read_u16_be(buf, 2);
        let string_offset: u16 = read_u16_be(buf, 4);
        let end_of_array: usize = 6 + 12 * (count as usize);
        if end_of_array > total {
            return Err(TableEncodingError::RecordsOutOfBounds(end_of_array, total));
        }
        let mut name_records: Vec<NameRecord> = Vec::with_capacity(count as usize);
        let mut done: usize = 0;
        while done < count as usize
            invariant
                done <= count,
                end_of_array == 6 + 12 * count,
                end_of_array <= total,
                total == buf@.len(),
                name_records@.len() == done,
                forall|index: int|
                    0 <= index < done ==> (#[trigger] name_records@[index])@ == name_record_of(
                        buf@,
                        6 + 12 * index,
                    ),
            decreases count - done,
        {
            name_records.push(NameRecord::read_at(buf, 6 + 12 * done));
            done = done + 1;
        }
        let name: Vec<u8> = copy_range(buf, end_of_array, total);
        let table = Name {
            format: TableFormat::from(format),
            count,
            string_offset,
            name_records,
            name,
        };
        assert(table@.name_records =~= decode_name(buf@)->Ok_0.name_records);
        Ok(table)
    }

    /// Reads the region that `metadata` gives from `reader` and decodes the
    /// table from it.
    pub fn from_reader(reader: &mut VeroBufReader, metadata: &TableMetadata) -> (outcome: Result<
        Self,
        VeroTypeError,
    >)
        ensures
            final(reader).bytes() == old(reader).bytes(),
            view_of(outcome) == name_at(old(reader).bytes(), metadata@),
            final(reader).cursor() == if table_bytes(old(reader).bytes(), metadata@) is Some {
                metadata@.offset + metadata@.length
            } else {
                metadata@.offset as int
            },
    {
        match reader.seek_to(metadata.offset() as u64) {
            Ok(()) => {},
            Err(error) => {
                return Err(VeroTypeError::from(error));
            },
        }
        let buf: Vec<u8> = match reader.read_bytes(metadata.length() as usize) {
            Ok(buf) => buf,
            Err(error) => {
                return Err(VeroTypeError::from(error));
            },
        };
        assert(table_bytes(old(reader).bytes(), metadata@) == Some(buf@)) by {
            assert(buf@ =~= table_bytes(old(reader).bytes(), metadata@).unwrap());
        }
        match Name::from_buffer(buf.as_slice()) {
            Ok(table) => Ok(table),
            Err(error) => Err(VeroTypeError::from(error)),
        }
    }

    /// The format of the table.
    pub fn format(&self) -> (value: TableFormat)
        ensures
            value == self@.format,
    {
        self.format
    }

    /// The number of records that the header announces.
    pub fn count(&self) -> (value: u16)
        ensures
            value == self@.count,
    {
        self.count
    }

    /// The place, counted from the start of the table, at which the header
    /// says the string pool begins.
    pub fn string_offset(&self) -> (value: u16)
        ensures
            value == self@.string_offset,
    {
        self.string_offset
    }

    /// The records in file order.
    pub fn name_records(&self) -> (records: &Vec<NameRecord>)
        ensures
            records@.map_values(|record: NameRecord| record@) == self@.name_records,
    {
        &self.name_records
    }

    /// The string pool: the bytes of the table that follow the records.
    pub fn name(&self) -> (pool: &Vec<u8>)
        ensures
            pool@ == self@.name,
    {
        &self.name
    }

    /// The bytes of the string that `record` addresses in the string pool,
    /// or nothing where the pool does not hold them all. How the bytes are
    /// to be read as text depends on the platform and is left to the caller.
    pub fn string_bytes(&self, record: &NameRecord) -> (found: Option<Vec<u8>>)
        ensures
            match found {
                Some(bytes) => addressed(self@.name, record@.offset, record@.length) == Some(
                    bytes@,
                ),
                None => addressed(self@.name, record@.offset, record@.length) is None,
            },
    {
        let from: usize = record.offset as usize;
        let to: usize = from + record.length as usize;
        if to <= self.name.len() {
            Some(copy_range(self.name.as_slice(), from, to))
        } else {
            None
        }
    }
}

} // verus!
