//! The offset header, the table directory and the font as a whole.
use crate::buffer::{prefix, VeroBufReader};
use crate::bytes::{
    lemma_u16_be_bytes_of_read, lemma_u16_be_of_bytes, lemma_u32_be_bytes_of_read,
    lemma_u32_be_of_bytes, push_u16_be, push_u32_be, read_u16_be, read_u32_be, u16_be,
    u16_be_bytes, u32_be, u32_be_bytes,
};
use crate::tables::head::{head_at, Head, HeadView};
use crate::tables::name::{name_at, Name, NameView};
use crate::{lift, view_of, VeroTypeError};
use std::collections::BTreeMap;
use vstd::prelude::*;
use vstd::std_specs::convert::TryFromSpecImpl;
use vstd::utf8::{
    is_leading_byte_width_1, partial_valid_utf8, partial_valid_utf8_extend_ascii_block, valid_utf8,
};

pub mod cmap;
pub mod head;
pub mod name;

verus! {

/// Why a run of bytes is not the region it should be.
#[derive(Debug, Clone, Copy, PartialEq, Eq)]
pub enum TableEncodingError {
    /// A region does not have the number of bytes its layout needs: the
    /// number needed, then the number found.
    InvalidBufferLength(usize, usize),
    /// The four tag bytes of a directory entry are not UTF-8 text.
    InvalidTag,
    /// The records announced by a name table would end beyond the table:
    /// the place where they would end, then the length of the table.
    RecordsOutOfBounds(usize, usize),
}

/// The tables that every TrueType font must hold.
#[derive(Debug, Clone, Copy, PartialEq, Eq, PartialOrd, Ord, Hash)]
pub enum RequiredTables {
    Cmap,
    Glyf,
    Head,
    Hhea,
    Hmtx,
    Loca,
    Maxp,
    Name,
    Post,
}

impl RequiredTables {
    /// The four bytes, ASCII letters all, by which the directory names the table.
    pub open spec fn tag(self) -> Seq<u8> {
        match self {
            RequiredTables::Cmap => seq!['c' as u8, 'm' as u8, 'a' as u8, 'p' as u8],
            RequiredTables::Glyf => seq!['g' as u8, 'l' as u8, 'y' as u8, 'f' as u8],
            RequiredTables::Head => seq!['h' as u8, 'e' as u8, 'a' as u8, 'd' as u8],
            RequiredTables::Hhea => seq!['h' as u8, 'h' as u8, 'e' as u8, 'a' as u8],
            RequiredTables::Hmtx => seq!['h' as u8, 'm' as u8, 't' as u8, 'x' as u8],
            RequiredTables::Loca => seq!['l' as u8, 'o' as u8, 'c' as u8, 'a' as u8],
            RequiredTables::Maxp => seq!['m' as u8, 'a' as u8, 'x' as u8, 'p' as u8],
            RequiredTables::Name => seq!['n' as u8, 'a' as u8, 'm' as u8, 'e' as u8],
            RequiredTables::Post => seq!['p' as u8, 'o' as u8, 's' as u8, 't' as u8],
        }
    }

    /// The table that `tag` names, if it names one of the nine.
    pub open spec fn lookup(tag: Seq<u8>) -> Option<RequiredTables> {
        if tag == RequiredTables::Cmap.tag() {
            Some(RequiredTables::Cmap)
        } else if tag == RequiredTables::Glyf.tag() {
            Some(RequiredTables::Glyf)
        } else if tag == RequiredTables::Head.tag() {
            Some(RequiredTables::Head)
        } else if tag == RequiredTables::Hhea.tag() {
            Some(RequiredTables::Hhea)
        } else if tag == RequiredTables::Hmtx.tag() {
            Some(RequiredTables::Hmtx)
        } else if tag == RequiredTables::Loca.tag() {
            Some(RequiredTables::Loca)
        } else if tag == RequiredTables::Maxp.tag() {
            Some(RequiredTables::Maxp)
        } else if tag == RequiredTables::Name.tag() {
            Some(RequiredTables::Name)
        } else if tag == RequiredTables::Post.tag() {
            Some(RequiredTables::Post)
        } else {
            None
        }
    }

    /// The place of the table among the nine, in the order of their tags.
    pub open spec fn ordinal(self) -> u8 {
        match self {
            RequiredTables::Cmap => 0,
            RequiredTables::Glyf => 1,
            RequiredTables::Head => 2,
            RequiredTables::Hhea => 3,
            RequiredTables::Hmtx => 4,
            RequiredTables::Loca => 5,
            RequiredTables::Maxp => 6,
            RequiredTables::Name => 7,
            RequiredTables::Post => 8,
        }
    }

    fn index(self) -> (place: u8)
        ensures
            place == self.ordinal(),
    {
        match self {
            RequiredTables::Cmap => 0,
            RequiredTables::Glyf => 1,
            RequiredTables::Head => 2,
            RequiredTables::Hhea => 3,
            RequiredTables::Hmtx => 4,
            RequiredTables::Loca => 5,
            RequiredTables::Maxp => 6,
            RequiredTables::Name => 7,
            RequiredTables::Post => 8,
        }
    }
}

/// The table whose ordinal is `place`.
fn table_at(place: u8) -> (table: RequiredTables)
    requires
        place < 9,
    ensures
        table.ordinal() == place,
{
    if place == 0 {
        RequiredTables::Cmap
    } else if place == 1 {
        RequiredTables::Glyf
    } else if place == 2 {
        RequiredTables::Head
    } else if place == 3 {
        RequiredTables::Hhea
    } else if place == 4 {
        RequiredTables::Hmtx
    } else if place == 5 {
        RequiredTables::Loca
    } else if place == 6 {
        RequiredTables::Maxp
    } else if place == 7 {
        RequiredTables::Name
    } else {
        RequiredTables::Post
    }
}

/// Whether `value` is the four bytes `a`, `b`, `c`, `d`.
fn spells(value: &[u8], a: u8, b: u8, c: u8, d: u8) -> (same: bool)
    ensures
        same == (value@ == seq![a, b, c, d]),
{
    let same = value.len() == 4 && value[0] == a && value[1] == b && value[2] == c && value[3]
        == d;
    assert(same == (value@ =~= seq![a, b, c, d]));
    same
}

impl<'a> TryFrom<&'a [u8]> for RequiredTables {
    type Error = ();

    /// Looks a tag up among the nine; a tag that names none of them is no
    /// required table.
    fn try_from(value: &'a [u8]) -> (outcome: Result<Self, ()>)
        ensures
            outcome == match RequiredTables::lookup(value@) {
                Some(table) => Ok::<RequiredTables, ()>(table),
                None => Err::<RequiredTables, ()>(()),
            },
    {
        if spells(value, 'c' as u8, 'm' as u8, 'a' as u8, 'p' as u8) {
            Ok(RequiredTables::Cmap)
        } else if spells(value, 'g' as u8, 'l' as u8, 'y' as u8, 'f' as u8) {
            Ok(RequiredTables::Glyf)
        } else if spells(value, 'h' as u8, 'e' as u8, 'a' as u8, 'd' as u8) {
            Ok(RequiredTables::Head)
        } else if spells(value, 'h' as u8, 'h' as u8, 'e' as u8, 'a' as u8) {
            Ok(RequiredTables::Hhea)
        } else if spells(value, 'h' as u8, 'm' as u8, 't' as u8, 'x' as u8) {
            Ok(RequiredTables::Hmtx)
        } else if spells(value, 'l' as u8, 'o' as u8, 'c' as u8, 'a' as u8) {
            Ok(RequiredTables::Loca)
        } else if spells(value, 'm' as u8, 'a' as u8, 'x' as u8, 'p' as u8) {
            Ok(RequiredTables::Maxp)
        } else if spells(value, 'n' as u8, 'a' as u8, 'm' as u8, 'e' as u8) {
            Ok(RequiredTables::Name)
        } else if spells(value, 'p' as u8, 'o' as u8, 's' as u8, 't' as u8) {
            Ok(RequiredTables::Post)
        } else {
            Err(())
        }
    }
}

impl<'a> TryFromSpecImpl<&'a [u8]> for RequiredTables {
    open spec fn obeys_try_from_spec() -> bool {
        true
    }

    open spec fn try_from_spec(value: &'a [u8]) -> Result<Self, ()> {
        match RequiredTables::lookup(value@) {
            Some(table) => Ok(table),
            None => Err(()),
        }
    }
}

/// What the offset header of a font says.
pub struct OffsetTableView {
    pub scalar_type: u32,
    pub num_tables: u16,
    pub search_range: u16,
    pub entry_selector: u16,
    pub range_shift: u16,
}

/// The header that the twelve bytes of `bytes` spell.
pub open spec fn offset_table_of(bytes: Seq<u8>) -> OffsetTableView {
    OffsetTableView {
        scalar_type: u32_be(bytes, 0),
        num_tables: u16_be(bytes, 4),
        search_range: u16_be(bytes, 6),
        entry_selector: u16_be(bytes, 8),
        range_shift: u16_be(bytes, 10),
    }
}

/// The outcome of decoding an offset header from exactly its twelve bytes.
pub open spec fn decode_offset_table(bytes: Seq<u8>) -> Result<
    OffsetTableView,
    TableEncodingError,
> {
    if bytes.len() != 12 {
        Err(TableEncodingError::InvalidBufferLength(12, bytes.len() as usize))
    } else {
        Ok(offset_table_of(bytes))
    }
}

/// The twelve bytes that spell `header`.
pub open spec fn offset_table_bytes(header: OffsetTableView) -> Seq<u8> {
    u32_be_bytes(header.scalar_type) + u16_be_bytes(header.num_tables) + u16_be_bytes(
        header.search_range,
    ) + u16_be_bytes(header.entry_selector) + u16_be_bytes(header.range_shift)
}

/// The first twelve bytes of a font file: the kind of outlines it holds, the
/// number of its tables, and three numbers that help a binary search of the
/// directory.
#[derive(Debug, Clone, Copy, PartialEq, Eq)]
pub struct OffsetTable {
    scalar_type: u32,
    num_tables: u16,
    search_range: u16,
    entry_selector: u16,
    range_shift: u16,
}

impl View for OffsetTable {
    type V = OffsetTableView;

    closed spec fn view(&self) -> OffsetTableView {
        OffsetTableView {
            scalar_type: self.scalar_type,
            num_tables: self.num_tables,
            search_range: self.search_range,
            entry_selector: self.entry_selector,
            range_shift: self.range_shift,
        }
    }
}

impl OffsetTable {
    /// Decodes the header from exactly its twelve bytes.
    pub fn from_buffer(buf: &[u8]) -> (outcome: Result<Self, TableEncodingError>)
        ensures
            view_of(outcome) == decode_offset_table(buf@),
    {
        if buf.len() != 12 {
            return Err(TableEncodingError::InvalidBufferLength(12, buf.len()));
        }
        Ok(
            OffsetTable {
                scalar_type: read_u32_be(buf, 0),
                num_tables: read_u16_be(buf, 4),
                search_range: read_u16_be(buf, 6),
                entry_selector: read_u16_be(buf, 8),
                range_shift: read_u16_be(buf, 10),
            },
        )
    }

    /// Reads the header from the first twelve bytes of `reader`, wherever
    /// its cursor stands. A source of fewer than twelve bytes is read to
    /// its end and refused for its length.
    pub fn from_reader(reader: &mut VeroBufReader) -> (outcome: Result<Self, VeroTypeError>)
        ensures
            final(reader).bytes() == old(reader).bytes(),
            view_of(outcome) == lift(decode_offset_table(prefix(old(reader).bytes(), 12))),
            final(reader).cursor() == prefix(old(reader).bytes(), 12).len(),
    {
        match reader.seek_to(0) {
            Ok(()) => {},
            Err(error) => {
                return Err(VeroTypeError::from(error));
            },
        }
        assert(reader.rest() =~= reader.bytes());
        let buffer: Vec<u8> = reader.read_up_to(12);
        match OffsetTable::from_buffer(buffer.as_slice()) {
            Ok(header) => Ok(header),
            Err(error) => Err(VeroTypeError::from(error)),
        }
    }

    /// The twelve bytes that decode to this header.
    pub fn to_bytes(&self) -> (bytes: Vec<u8>)
        ensures
            bytes@ == offset_table_bytes(self@),
    {
        let mut bytes: Vec<u8> = Vec::with_capacity(12);
        push_u32_be(&mut bytes, self.scalar_type);
        push_u16_be(&mut bytes, self.num_tables);
        push_u16_be(&mut bytes, self.search_range);
        push_u16_be(&mut bytes, self.entry_selector);
        push_u16_be(&mut bytes, self.range_shift);
        assert(bytes@ =~= offset_table_bytes(self@));
        bytes
    }

    /// The kind of outlines the font holds.
    pub fn scalar_type(&self) -> (value: u32)
        ensures
            value == self@.scalar_type,
    {
        self.scalar_type
    }

    /// The number of tables in the font.
    pub fn num_tables(&self) -> (value: u16)
        ensures
            value == self@.num_tables,
    {
        self.num_tables
    }

    /// Sixteen times the largest power of two that is at most the number of tables.
    pub fn search_range(&self) -> (value: u16)
        ensures
            value == self@.search_range,
    {
        self.search_range
    }

    /// The binary logarithm of the largest power of two that is at most the
    /// number of tables.
    pub fn entry_selector(&self) -> (value: u16)
        ensures
            value == self@.entry_selector,
    {
        self.entry_selector
    }

    /// Sixteen times the number of tables, less the search range.
    pub fn range_shift(&self) -> (value: u16)
        ensures
            value == self@.range_shift,
    {
        self.range_shift
    }
}

/// Decoding twelve bytes and encoding the header again gives the same
/// twelve bytes.
pub proof fn lemma_offset_table_bytes_round_trip(bytes: Seq<u8>)
    requires
        bytes.len() == 12,
    ensures
        offset_table_bytes(offset_table_of(bytes)) == bytes,
{
    lemma_u32_be_bytes_of_read(bytes, 0);
    lemma_u16_be_bytes_of_read(bytes, 4);
    lemma_u16_be_bytes_of_read(bytes, 6);
    lemma_u16_be_bytes_of_read(bytes, 8);
    lemma_u16_be_bytes_of_read(bytes, 10);
    assert(offset_table_bytes(offset_table_of(bytes)) =~= bytes);
}

/// Encoding a header gives twelve bytes, and decoding them gives the header
/// again, field for field.
pub proof fn lemma_offset_table_round_trip(header: OffsetTableView)
    ensures
        offset_table_bytes(header).len() == 12,
        offset_table_of(offset_table_bytes(header)) == header,
{
    lemma_u32_be_of_bytes(header.scalar_type);
    lemma_u16_be_of_bytes(header.num_tables);
    lemma_u16_be_of_bytes(header.search_range);
    lemma_u16_be_of_bytes(header.entry_selector);
    lemma_u16_be_of_bytes(header.range_shift);
}

/// Where a table lies in the file.
pub struct TableMetadataView {
    pub checksum: u32,
    pub offset: u32,
    pub length: u32,
}

/// The location that the directory entry spells whose sixteen bytes begin
/// at place `at` of `bytes`; the first four, the tag, are no part of it.
pub open spec fn table_metadata_of(bytes: Seq<u8>, at: int) -> TableMetadataView {
    TableMetadataView {
        checksum: u32_be(bytes, at + 4),
        offset: u32_be(bytes, at + 8),
        length: u32_be(bytes, at + 12),
    }
}

/// The outcome of decoding a location from exactly the sixteen bytes of a
/// directory entry.
pub open spec fn decode_table_metadata(bytes: Seq<u8>) -> Result<
    TableMetadataView,
    TableEncodingError,
> {
    if bytes.len() != 16 {
        Err(TableEncodingError::InvalidBufferLength(16, bytes.len() as usize))
    } else {
        Ok(table_metadata_of(bytes, 0))
    }
}

/// Where a table lies in the file: its checksum, the offset of its first
/// byte from the start of the file, and its length in bytes.
#[derive(Debug, Clone, Copy, PartialEq, Eq)]
pub struct TableMetadata {
    checksum: u32,
    offset: u32,
    length: u32,
}

impl View for TableMetadata {
    type V = TableMetadataView;

    closed spec fn view(&self) -> TableMetadataView {
        TableMetadataView { checksum: self.checksum, offset: self.offset, length: self.length }
    }
}

impl TableMetadata {
    /// Decodes a location from the sixteen bytes of a directory entry.
    pub fn from_buffer(buf: &[u8]) -> (outcome: Result<Self, TableEncodingError>)
        ensures
            view_of(outcome) == decode_table_metadata(buf@),
    {
        if buf.len() != 16 {
            return Err(TableEncodingError::InvalidBufferLength(16, buf.len()));
        }
        Ok(TableMetadata::read_at(buf, 0))
    }

    /// Decodes the location from the entry whose sixteen bytes begin at
    /// place `at` of `buf`.
    fn read_at(buf: &[u8], at: usize) -> (location: Self)
        requires
            at + 16 <= buf@.len(),
        ensures
            location@ == table_metadata_of(buf@, at as int),
    {
        assert(buf@.len() == buf.len());
        TableMetadata {
            checksum: read_u32_be(buf, at + 4),
            offset: read_u32_be(buf, at + 8),
            length: read_u32_be(buf, at + 12),
        }
    }

    /// The checksum of the table.
    pub fn checksum(&self) -> (value: u32)
        ensures
            value == self@.checksum,
    {
        self.checksum
    }

    /// The offset of the table's first byte from the start of the file.
    pub fn offset(&self) -> (value: u32)
        ensures
            value == self@.offset,
    {
        self.offset
    }

    /// The length of the table in bytes.
    pub fn length(&self) -> (value: u32)
        ensures
            value == self@.length,
    {
        self.length
    }
}

/// Whether `bytes` are UTF-8 text.
///
/// Not proved: the body asks `std::str::from_utf8`, which accepts a byte
/// string exactly when it is well-formed UTF-8. `valid_utf8` is the
/// definition of well-formed UTF-8 that vstd gives.
#[verifier::external_body]
fn is_utf8(bytes: &[u8]) -> (valid: bool)
    ensures
        valid == valid_utf8(bytes@),
{
    std::str::from_utf8(bytes).is_ok()
}

/// The four tag bytes of entry `index` of a directory block.
pub open spec fn entry_tag(block: Seq<u8>, index: int) -> Seq<u8> {
    block.subrange(16 * index, 16 * index + 4)
}

/// The table that entry `index` names, if it names one of the nine.
pub open spec fn entry_table(block: Seq<u8>, index: int) -> Option<RequiredTables> {
    RequiredTables::lookup(entry_tag(block, index))
}

/// The location that entry `index` gives.
pub open spec fn entry_location(block: Seq<u8>, index: int) -> TableMetadataView {
    table_metadata_of(block, 16 * index)
}

/// Whether the tags of the first `count` entries are all UTF-8 text.
pub open spec fn tags_are_text(block: Seq<u8>, count: nat) -> bool {
    forall|index: int| 0 <= index < count ==> valid_utf8(#[trigger] entry_tag(block, index))
}

/// The directory that the first `count` entries of `block` build when they
/// are taken in file order: an entry whose tag names one of the nine tables
/// puts its location under that table, in place of what an earlier entry
/// put there; any other entry changes nothing.
pub open spec fn directory_of(block: Seq<u8>, count: nat) -> Map<RequiredTables, TableMetadataView>
    decreases count,
{
    if count == 0 {
        Map::empty()
    } else {
        let earlier = directory_of(block, (count - 1) as nat);
        match entry_table(block, count - 1) {
            Some(table) => earlier.insert(table, entry_location(block, count - 1)),
            None => earlier,
        }
    }
}

/// The outcome of decoding a directory of `count` entries from `block`:
/// the block must hold exactly sixteen bytes for each entry, and each tag
/// must be UTF-8 text.
pub open spec fn decode_directory(block: Seq<u8>, count: u16) -> Result<
    Map<RequiredTables, TableMetadataView>,
    TableEncodingError,
> {
    if block.len() != 16 * count {
        Err(TableEncodingError::InvalidBufferLength((16 * count) as usize, block.len() as usize))
    } else if !tags_are_text(block, count as nat) {
        Err(TableEncodingError::InvalidTag)
    } else {
        Ok(directory_of(block, count as nat))
    }
}

/// The directory held in a map from the ordinals of the tables.
spec fn keyed_by_table(slots: Map<u8, TableMetadata>) -> Map<
    RequiredTables,
    TableMetadataView,
> {
    Map::new(
        |table: RequiredTables| slots.contains_key(table.ordinal()),
        |table: RequiredTables| slots[table.ordinal()]@,
    )
}

/// The table directory: for each of the nine tables that the font lists,
/// where it lies. A table is listed at most once.
#[derive(Debug, PartialEq, Eq)]
pub struct TablesHeaders {
    inner: BTreeMap<u8, TableMetadata>,
}

impl View for TablesHeaders {
    type V = Map<RequiredTables, TableMetadataView>;

    closed spec fn view(&self) -> Map<RequiredTables, TableMetadataView> {
        keyed_by_table(self.inner@)
    }
}

impl TablesHeaders {
    /// Decodes the directory from the block of its `num_tables` entries of
    /// sixteen bytes each.
    pub fn from_buffer(buf: &[u8], num_tables: u16) -> (outcome: Result<Self, TableEncodingError>)
        ensures
            view_of(outcome) == decode_directory(buf@, num_tables),
    {
        let count: usize = num_tables as usize;
        let needed: usize = 16 * count;
        if buf.len() != needed {
            return Err(TableEncodingError::InvalidBufferLength(needed, buf.len()));
        }
        let mut inner: BTreeMap<u8, TableMetadata> = BTreeMap::new();
        assert(keyed_by_table(inner@) =~= directory_of(buf@, 0));
        let mut done: usize = 0;
        while done < count
            invariant
                done <= count,
                count == num_tables,
                buf@.len() == 16 * count,
                tags_are_text(buf@, done as nat),
                keyed_by_table(inner@) == directory_of(buf@, done as nat),
            decreases count - done,
        {
            let tag = &buf[16 * done..16 * done + 4];
            assert(tag@ == entry_tag(buf@, done as int));
            if !is_utf8(tag) {
                return Err(TableEncodingError::InvalidTag);
            }
            match RequiredTables::try_from(tag) {
                Ok(table) => {
                    let location = TableMetadata::read_at(buf, 16 * done);
                    let ghost before = inner@;
                    inner.insert(table.index(), location);
                    assert(keyed_by_table(inner@) =~= keyed_by_table(before).insert(
                        table,
                        location@,
                    ));
                },
                Err(_) => {},
            }
            done = done + 1;
        }
        Ok(TablesHeaders { inner })
    }

    /// Reads the directory of `num_tables` entries from `reader`, starting
    /// where its cursor stands: just behind the offset header, in a font
    /// file. A source that ends before the last entry is read to its end
    /// and refused for its length.
    pub fn from_reader(reader: &mut VeroBufReader, num_tables: u16) -> (outcome: Result<
        Self,
        VeroTypeError,
    >)
        ensures
            final(reader).bytes() == old(reader).bytes(),
            view_of(outcome) == lift(
                decode_directory(prefix(old(reader).rest(), (16 * num_tables) as nat), num_tables),
            ),
            final(reader).cursor() == old(reader).cursor() + prefix(
                old(reader).rest(),
                (16 * num_tables) as nat,
            ).len(),
    {
        let buffer: Vec<u8> = reader.read_up_to(16 * (num_tables as usize));
        match TablesHeaders::from_buffer(buffer.as_slice(), num_tables) {
            Ok(headers) => Ok(headers),
            Err(error) => Err(VeroTypeError::from(error)),
        }
    }

    /// The tables that the directory lists, each with its location, in the
    /// order of the tables.
    pub fn entries(&self) -> (listed: Vec<(RequiredTables, TableMetadata)>)
        ensures
            self@.dom().finite(),
            listed@.len() == self@.len(),
            forall|index: int|
                0 <= index < listed@.len() ==> self@.contains_key(
                    (#[trigger] listed@[index]).0,
                ) && self@[listed@[index].0] == listed@[index].1@,
            forall|first: int, second: int|
                0 <= first < second < listed@.len() ==> listed@[first].0.ordinal()
                    < listed@[second].0.ordinal(),
            forall|table: RequiredTables|
                self@.contains_key(table) ==> exists|index: int|
                    0 <= index < listed@.len() && (#[trigger] listed@[index]).0 == table,
    {
        let mut listed: Vec<(RequiredTables, TableMetadata)> = Vec::new();
        let ghost mut seen: Set<RequiredTables> = Set::empty();
        let mut place: u8 = 0;
        while place < 9
            invariant
                place <= 9,
                seen.finite(),
                seen.len() == listed@.len(),
                forall|table: RequiredTables|
                    seen.contains(table) <==> self@.contains_key(table) && table.ordinal()
                        < place,
                forall|index: int|
                    0 <= index < listed@.len() ==> self@.contains_key(
                        (#[trigger] listed@[index]).0,
                    ) && self@[listed@[index].0] == listed@[index].1@ && listed@[index].0.ordinal()
                        < place,
                forall|first: int, second: int|
                    0 <= first < second < listed@.len() ==> listed@[first].0.ordinal()
                        < listed@[second].0.ordinal(),
                forall|table: RequiredTables|
                    seen.contains(table) ==> exists|index: int|
                        0 <= index < listed@.len() && (#[trigger] listed@[index]).0 == table,
            decreases 9 - place,
        {
            let table = table_at(place);
            match self.get(table) {
                Some(location) => {
                    let ghost before = listed@;
                    listed.push((table, *location));
                    proof {
                        assert forall|other: RequiredTables| seen.contains(other) implies exists|
                            index: int,
                        |
                            0 <= index < listed@.len() && (#[trigger] listed@[index]).0
                                == other by {
                            let index = choose|index: int|
                                0 <= index < before.len() && (#[trigger] before[index]).0 == other;
                            assert(listed@[index].0 == other);
                        }
                        assert(listed@[before.len() as int].0 == table);
                        seen = seen.insert(table);
                    }
                },
                None => {},
            }
            place = place + 1;
        }
        assert(seen =~= self@.dom());
        listed
    }

    /// The number of tables that the directory lists.
    pub fn len(&self) -> (count: usize)
        ensures
            self@.dom().finite(),
            count == self@.len(),
    {
        self.entries().len()
    }

    /// Where `k` lies, for a caller that cannot do without the table: a
    /// directory that does not list it fails the request.
    pub fn require(&self, k: RequiredTables) -> (found: Result<&TableMetadata, VeroTypeError>)
        ensures
            match found {
                Ok(location) => self@.contains_key(k) && self@[k] == location@,
                Err(error) => !self@.contains_key(k) && error
                    == VeroTypeError::MissingRequiredTable(k),
            },
    {
        match self.get(k) {
            Some(location) => Ok(location),
            None => Err(VeroTypeError::MissingRequiredTable(k)),
        }
    }

    /// Where `k` lies, if the directory lists it.
    pub fn get(&self, k: RequiredTables) -> (found: Option<&TableMetadata>)
        ensures
            match found {
                Some(location) => self@.contains_key(k) && self@[k] == location@,
                None => !self@.contains_key(k),
            },
    {
        let place: u8 = k.index();
        self.inner.get(&place)
    }
}

/// The tables that the first `count` entries of `block` name.
pub open spec fn tables_named(block: Seq<u8>, count: nat) -> Set<RequiredTables> {
    Set::new(
        |table: RequiredTables|
            exists|index: int| 0 <= index < count && entry_table(block, index) == Some(table),
    )
}

/// How many of the first `count` entries of `block` name one of the nine
/// tables.
pub open spec fn named_entries(block: Seq<u8>, count: nat) -> nat
    decreases count,
{
    if count == 0 {
        0
    } else if entry_table(block, count - 1) is Some {
        named_entries(block, (count - 1) as nat) + 1
    } else {
        named_entries(block, (count - 1) as nat)
    }
}

/// Whether no two of the first `count` entries of `block` name the same table.
pub open spec fn names_differ(block: Seq<u8>, count: nat) -> bool {
    forall|first: int, second: int|
        0 <= first < second < count && entry_table(block, first) is Some ==> entry_table(
            block,
            first,
        ) != entry_table(block, second)
}

/// Each of the nine tags names its own table and no other.
pub proof fn lemma_lookup_finds_tag(table: RequiredTables)
    ensures
        RequiredTables::lookup(table.tag()) == Some(table),
{
    if table != RequiredTables::Cmap {
        lemma_tags_differ(table, RequiredTables::Cmap);
    }
    if table != RequiredTables::Glyf {
        lemma_tags_differ(table, RequiredTables::Glyf);
    }
    if table != RequiredTables::Head {
        lemma_tags_differ(table, RequiredTables::Head);
    }
    if table != RequiredTables::Hhea {
        lemma_tags_differ(table, RequiredTables::Hhea);
    }
    if table != RequiredTables::Hmtx {
        lemma_tags_differ(table, RequiredTables::Hmtx);
    }
    if table != RequiredTables::Loca {
        lemma_tags_differ(table, RequiredTables::Loca);
    }
    if table != RequiredTables::Maxp {
        lemma_tags_differ(table, RequiredTables::Maxp);
    }
    if table != RequiredTables::Name {
        lemma_tags_differ(table, RequiredTables::Name);
    }
}

/// Two different tables have different tags.
pub proof fn lemma_tags_differ(one: RequiredTables, other: RequiredTables)
    requires
        one != other,
    ensures
        one.tag() != other.tag(),
{
    let a = one.tag();
    let b = other.tag();
    assert(a[0] != b[0] || a[1] != b[1] || a[2] != b[2] || a[3] != b[3]);
}

/// The tag of each of the nine tables is UTF-8 text.
pub proof fn lemma_tags_are_text(table: RequiredTables)
    ensures
        valid_utf8(table.tag()),
{
    let tag = table.tag();
    assert(tag.subrange(0, 0) =~= Seq::<u8>::empty());
    assert(partial_valid_utf8(tag, 0));
    assert forall|place: int| 0 <= place < 4 implies #[trigger] is_leading_byte_width_1(
        tag[place],
    ) by {}
    partial_valid_utf8_extend_ascii_block(tag, 0, 4);
    assert(tag.subrange(0, 4) =~= tag);
}

/// An entry that names one of the nine tables is never refused for its tag.
pub proof fn lemma_named_entry_is_text(block: Seq<u8>, index: int)
    requires
        entry_table(block, index) is Some,
    ensures
        valid_utf8(entry_tag(block, index)),
{
    let table = entry_table(block, index).unwrap();
    lemma_lookup_gives_tag(entry_tag(block, index), table);
    lemma_tags_are_text(table);
}

/// A tag that names a table is the tag of that table.
pub proof fn lemma_lookup_gives_tag(tag: Seq<u8>, table: RequiredTables)
    requires
        RequiredTables::lookup(tag) == Some(table),
    ensures
        tag == table.tag(),
{
}

/// The directory lists exactly the tables that some entry names.
pub proof fn lemma_directory_lists_named(block: Seq<u8>, count: nat)
    ensures
        directory_of(block, count).dom() == tables_named(block, count),
        directory_of(block, count).dom().finite(),
    decreases count,
{
    if count == 0 {
        assert(directory_of(block, count).dom() =~= tables_named(block, count));
    } else {
        let fewer = (count - 1) as nat;
        lemma_directory_lists_named(block, fewer);
        assert forall|table: RequiredTables|
            directory_of(block, count).dom().contains(table) == tables_named(
                block,
                count,
            ).contains(table) by {
            if tables_named(block, count).contains(table) {
                let index = choose|index: int|
                    0 <= index < count && entry_table(block, index) == Some(table);
                if index < fewer {
                    assert(tables_named(block, fewer).contains(table));
                }
            }
            if tables_named(block, fewer).contains(table) {
                let index = choose|index: int|
                    0 <= index < fewer && entry_table(block, index) == Some(table);
                assert(0 <= index < count && entry_table(block, index) == Some(table));
            }
        }
        assert(directory_of(block, count).dom() =~= tables_named(block, count));
    }
}

/// Where several entries name the same table, the directory keeps the
/// location that the last of them gives.
pub proof fn lemma_directory_keeps_last(
    block: Seq<u8>,
    count: nat,
    table: RequiredTables,
    index: int,
)
    requires
        0 <= index < count,
        entry_table(block, index) == Some(table),
        forall|later: int| index < later < count ==> entry_table(block, later) != Some(table),
    ensures
        directory_of(block, count).contains_key(table),
        directory_of(block, count)[table] == entry_location(block, index),
    decreases count,
{
    if index < count - 1 {
        lemma_directory_keeps_last(block, (count - 1) as nat, table, index);
    }
}

/// An entry whose tag names none of the nine tables adds nothing to the
/// directory.
pub proof fn lemma_directory_skips_unnamed(block: Seq<u8>, count: nat)
    requires
        count > 0,
        entry_table(block, count - 1) is None,
    ensures
        directory_of(block, count) == directory_of(block, (count - 1) as nat),
{
}

/// The directory has at most as many tables as there are entries that name
/// one, and exactly as many where no table is named twice.
pub proof fn lemma_directory_size(block: Seq<u8>, count: nat)
    ensures
        directory_of(block, count).dom().finite(),
        directory_of(block, count).len() == tables_named(block, count).len(),
        directory_of(block, count).len() <= named_entries(block, count) <= count,
        names_differ(block, count) ==> directory_of(block, count).len() == named_entries(
            block,
            count,
        ),
    decreases count,
{
    lemma_directory_lists_named(block, count);
    if count > 0 {
        let fewer = (count - 1) as nat;
        lemma_directory_size(block, fewer);
        lemma_directory_lists_named(block, fewer);
        if names_differ(block, count) {
            assert(names_differ(block, fewer));
            match entry_table(block, count - 1) {
                Some(table) => {
                    if tables_named(block, fewer).contains(table) {
                        let index = choose|index: int|
                            0 <= index < fewer && entry_table(block, index) == Some(table);
                        assert(entry_table(block, index) != entry_table(block, count - 1));
                    }
                },
                None => {},
            }
        }
    }
}

/// A block of exactly sixteen bytes for each of its `count` entries, whose
/// tags are all text, decodes to a directory that lists exactly the tables
/// that its entries name: so many and no more, however many entries name
/// none or name one that is named again.
pub proof fn lemma_directory_decodes(block: Seq<u8>, count: u16)
    requires
        block.len() == 16 * count,
        tags_are_text(block, count as nat),
    ensures
        decode_directory(block, count) == Ok::<
            Map<RequiredTables, TableMetadataView>,
            TableEncodingError,
        >(directory_of(block, count as nat)),
        directory_of(block, count as nat).dom() == tables_named(block, count as nat),
        directory_of(block, count as nat).dom().finite(),
        directory_of(block, count as nat).len() == tables_named(block, count as nat).len(),
        directory_of(block, count as nat).len() <= named_entries(block, count as nat) <= count,
{
    lemma_directory_lists_named(block, count as nat);
    lemma_directory_size(block, count as nat);
}

/// The bytes of the table that lies at `location` in `file`, where the file
/// holds them all.
pub open spec fn table_bytes(file: Seq<u8>, location: TableMetadataView) -> Option<Seq<u8>> {
    if location.offset + location.length <= file.len() {
        Some(file.subrange(location.offset as int, location.offset + location.length))
    } else if location.length == 0 {
        Some(Seq::empty())
    } else {
        None
    }
}

/// What a decoded font says.
pub struct TablesView {
    pub offset: OffsetTableView,
    pub headers: Map<RequiredTables, TableMetadataView>,
    pub head_table: HeadView,
    pub name_table: NameView,
}

/// The block of `file` in which the directory of `count` entries lies:
/// what follows the first twelve bytes, cut off behind the last entry.
pub open spec fn directory_block(file: Seq<u8>, count: u16) -> Seq<u8> {
    prefix(file.skip(12), (16 * count) as nat)
}

/// The outcome of decoding the directory of the font `file`: first the
/// offset header, which says how many entries there are, then the entries.
pub open spec fn directory_at(file: Seq<u8>) -> Result<
    (OffsetTableView, Map<RequiredTables, TableMetadataView>),
    VeroTypeError,
> {
    match lift(decode_offset_table(prefix(file, 12))) {
        Err(error) => Err(error),
        Ok(offset) => match lift(
            decode_directory(directory_block(file, offset.num_tables), offset.num_tables),
        ) {
            Err(error) => Err(error),
            Ok(headers) => Ok((offset, headers)),
        },
    }
}

/// The outcome of decoding the `head` table of the font `file` whose
/// directory is `headers`: a directory that does not list the table fails
/// the step.
pub open spec fn head_of_font(
    file: Seq<u8>,
    headers: Map<RequiredTables, TableMetadataView>,
) -> Result<HeadView, VeroTypeError> {
    if headers.contains_key(RequiredTables::Head) {
        head_at(file, headers[RequiredTables::Head])
    } else {
        Err(VeroTypeError::MissingRequiredTable(RequiredTables::Head))
    }
}

/// The outcome of decoding the `name` table of the font `file` whose
/// directory is `headers`: a directory that does not list the table fails
/// the step.
pub open spec fn name_of_font(
    file: Seq<u8>,
    headers: Map<RequiredTables, TableMetadataView>,
) -> Result<NameView, VeroTypeError> {
    if headers.contains_key(RequiredTables::Name) {
        name_at(file, headers[RequiredTables::Name])
    } else {
        Err(VeroTypeError::MissingRequiredTable(RequiredTables::Name))
    }
}

/// The outcome of decoding the font `file`: the offset header and the
/// directory, then the `head` table and then the `name` table, each from
/// the place where the directory says it lies. The first step that fails
/// decides the outcome.
pub open spec fn decode_font(file: Seq<u8>) -> Result<TablesView, VeroTypeError> {
    match directory_at(file) {
        Err(error) => Err(error),
        Ok((offset, headers)) => match head_of_font(file, headers) {
            Err(error) => Err(error),
            Ok(head_table) => match name_of_font(file, headers) {
                Err(error) => Err(error),
                Ok(name_table) => Ok(TablesView { offset, headers, head_table, name_table }),
            },
        },
    }
}

/// Where a read of the table at `location` leaves the cursor: behind the
/// table where `file` holds it all, else on its first byte.
pub open spec fn cursor_after_table(file: Seq<u8>, location: TableMetadataView) -> int {
    if table_bytes(file, location) is Some {
        location.offset + location.length
    } else {
        location.offset as int
    }
}

/// Where decoding the font `file` leaves the cursor: where the last read
/// that was made left it.
pub open spec fn cursor_after_font(file: Seq<u8>) -> int {
    match directory_at(file) {
        Err(_) => match decode_offset_table(prefix(file, 12)) {
            Err(_) => file.len() as int,
            Ok(offset) => 12 + directory_block(file, offset.num_tables).len() as int,
        },
        Ok((offset, headers)) => if !headers.contains_key(RequiredTables::Head) {
            12 + 16 * offset.num_tables
        } else if head_of_font(file, headers) is Err || !headers.contains_key(
            RequiredTables::Name,
        ) {
            cursor_after_table(file, headers[RequiredTables::Head])
        } else {
            cursor_after_table(file, headers[RequiredTables::Name])
        },
    }
}

/// A decoded font: its offset header, its directory, and its `head` and
/// `name` tables.
#[derive(Debug, PartialEq, Eq)]
pub struct Tables {
    /// The offset header.
    pub offset: OffsetTable,
    /// The directory.
    pub headers: TablesHeaders,
    /// The `head` table.
    pub head_table: Head,
    /// The `name` table.
    pub name_table: Name,
}

impl View for Tables {
    type V = TablesView;

    open spec fn view(&self) -> TablesView {
        TablesView {
            offset: self.offset@,
            headers: self.headers@,
            head_table: self.head_table@,
            name_table: self.name_table@,
        }
    }
}

impl Tables {
    /// Decodes the font that `reader` holds, wherever its cursor stands.
    /// Nothing is handed out unless every step succeeds.
    pub fn from_reader(reader: &mut VeroBufReader) -> (outcome: Result<Self, VeroTypeError>)
        ensures
            final(reader).bytes() == old(reader).bytes(),
            view_of(outcome) == decode_font(old(reader).bytes()),
            final(reader).cursor() == cursor_after_font(old(reader).bytes()),
    {
        let ghost file = reader.bytes();
        let offset: OffsetTable = match OffsetTable::from_reader(reader) {
            Ok(offset) => offset,
            Err(error) => {
                return Err(error);
            },
        };
        assert(reader.rest() =~= file.skip(12));
        let headers: TablesHeaders = match TablesHeaders::from_reader(
            reader,
            offset.num_tables(),
        ) {
            Ok(headers) => headers,
            Err(error) => {
                return Err(error);
            },
        };
        let head_table: Head = match headers.require(RequiredTables::Head) {
            Ok(location) => match Head::from_reader(reader, location) {
                Ok(head_table) => head_table,
                Err(error) => {
                    return Err(error);
                },
            },
            Err(error) => {
                return Err(error);
            },
        };
        let name_table: Name = match headers.require(RequiredTables::Name) {
            Ok(location) => match Name::from_reader(reader, location) {
                Ok(name_table) => name_table,
                Err(error) => {
                    return Err(error);
                },
            },
            Err(error) => {
                return Err(error);
            },
        };
        Ok(Tables { offset, headers, head_table, name_table })
    }
}

} // verus!
