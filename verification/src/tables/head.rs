//! The `head` table: global facts about the font.
use crate::buffer::{VeroBufReader, VeroBufReaderError};
use crate::bytes::{
    i16_be, i64_be, read_i16_be, read_i64_be, read_u16_be, read_u32_be, u16_be, u32_be,
};
use crate::tables::{table_bytes, TableEncodingError, TableMetadata, TableMetadataView};
use crate::{lift, view_of, VeroTypeError};
use vstd::arithmetic::power2::{lemma2_to64, pow2};
use vstd::prelude::*;

verus! {

/// Whether bit `place` of `word` is set; bit 0 is the least significant.
pub open spec fn bit(word: u16, place: nat) -> bool {
    (word as nat / pow2(place)) % 2 == 1
}

/// The number spelled by the `width` bits of `word` from bit `place` upwards.
pub open spec fn bit_field(word: u16, place: nat, width: nat) -> nat {
    (word as nat / pow2(place)) % pow2(width)
}

/// Bit `place` of `word` as a number: 1 where it is set, 0 where it is clear.
pub open spec fn bit_value(word: u16, place: nat) -> nat {
    if bit(word, place) {
        1
    } else {
        0
    }
}

/// What the bit of weight `unit` adds to `word`, in machine arithmetic.
spec fn unit_weight(word: u16, unit: u16) -> u16 {
    if (word / unit) % 2 == 1 {
        unit
    } else {
        0
    }
}

/// A word is the sum of its sixteen bits, each taken with its weight: the
/// bits hold all that the word holds.
pub proof fn lemma_word_is_sum_of_bits(word: u16)
    ensures
        word == bit_value(word, 0) + 2 * bit_value(word, 1) + 4 * bit_value(word, 2) + 8
            * bit_value(word, 3) + 16 * bit_value(word, 4) + 32 * bit_value(word, 5) + 64
            * bit_value(word, 6) + 128 * bit_value(word, 7) + 256 * bit_value(word, 8) + 512
            * bit_value(word, 9) + 1024 * bit_value(word, 10) + 2048 * bit_value(word, 11) + 4096
            * bit_value(word, 12) + 8192 * bit_value(word, 13) + 16384 * bit_value(word, 14)
            + 32768 * bit_value(word, 15),
{
    lemma2_to64();
    assert(word == unit_weight(word, 1) + unit_weight(word, 2) + unit_weight(word, 4)
        + unit_weight(word, 8) + unit_weight(word, 16) + unit_weight(word, 32) + unit_weight(
        word,
        64,
    ) + unit_weight(word, 128) + unit_weight(word, 256) + unit_weight(word, 512) + unit_weight(
        word,
        1024,
    ) + unit_weight(word, 2048) + unit_weight(word, 4096) + unit_weight(word, 8192)
        + unit_weight(word, 16384) + unit_weight(word, 32768)) by (bit_vector);
}

/// The three bits from bit 11 upwards spell a number between 0 and 7, bit
/// 11 being its least significant bit.
pub proof fn lemma_adobe_bits(word: u16)
    ensures
        bit_field(word, 11, 3) == bit_value(word, 11) + 2 * bit_value(word, 12) + 4 * bit_value(
            word,
            13,
        ),
{
    lemma2_to64();
    let shifted = word as int / 2048;
    assert(word as int / 4096 == shifted / 2);
    assert(word as int / 8192 == shifted / 4);
    assert(shifted % 8 == (shifted % 2) + 2 * ((shifted / 2) % 2) + 4 * ((shifted / 4) % 2));
}

/// Masking a word with a single bit tells whether that bit is set, and
/// masking and shifting bits 11 to 13 gives the number they spell.
proof fn lemma_masks(word: u16)
    ensures
        (word & 0x0001 != 0) == bit(word, 0),
        (word & 0x0002 != 0) == bit(word, 1),
        (word & 0x0004 != 0) == bit(word, 2),
        (word & 0x0008 != 0) == bit(word, 3),
        (word & 0x0010 != 0) == bit(word, 4),
        (word & 0x0020 != 0) == bit(word, 5),
        (word & 0x0040 != 0) == bit(word, 6),
        (word & 0x0080 != 0) == bit(word, 7),
        (word & 0x0100 != 0) == bit(word, 8),
        (word & 0x0200 != 0) == bit(word, 9),
        (word & 0x0400 != 0) == bit(word, 10),
        (word & 0x0800 != 0) == bit(word, 11),
        (word & 0x1000 != 0) == bit(word, 12),
        (word & 0x2000 != 0) == bit(word, 13),
        (word & 0x4000 != 0) == bit(word, 14),
        (word & 0x8000 != 0) == bit(word, 15),
        ((word & 0x3800) >> 11) == bit_field(word, 11, 3),
        bit_field(word, 11, 3) < 8,
{
    lemma2_to64();
    assert((word & 0x0001 != 0) == ((word / 1) % 2 == 1)) by (bit_vector);
    assert((word & 0x0002 != 0) == ((word / 2) % 2 == 1)) by (bit_vector);
    assert((word & 0x0004 != 0) == ((word / 4) % 2 == 1)) by (bit_vector);
    assert((word & 0x0008 != 0) == ((word / 8) % 2 == 1)) by (bit_vector);
    assert((word & 0x0010 != 0) == ((word / 16) % 2 == 1)) by (bit_vector);
    assert((word & 0x0020 != 0) == ((word / 32) % 2 == 1)) by (bit_vector);
    assert((word & 0x0040 != 0) == ((word / 64) % 2 == 1)) by (bit_vector);
    assert((word & 0x0080 != 0) == ((word / 128) % 2 == 1)) by (bit_vector);
    assert((word & 0x0100 != 0) == ((word / 256) % 2 == 1)) by (bit_vector);
    assert((word & 0x0200 != 0) == ((word / 512) % 2 == 1)) by (bit_vector);
    assert((word & 0x0400 != 0) == ((word / 1024) % 2 == 1)) by (bit_vector);
    assert((word & 0x0800 != 0) == ((word / 2048) % 2 == 1)) by (bit_vector);
    assert((word & 0x1000 != 0) == ((word / 4096) % 2 == 1)) by (bit_vector);
    assert((word & 0x2000 != 0) == ((word / 8192) % 2 == 1)) by (bit_vector);
    assert((word & 0x4000 != 0) == ((word / 16384) % 2 == 1)) by (bit_vector);
    assert((word & 0x8000 != 0) == ((word / 32768) % 2 == 1)) by (bit_vector);
    assert(((word & 0x3800) >> 11) == (word / 2048) % 8) by (bit_vector);
}

/// The flag word of the `head` table. The sixteen bits are kept as they
/// were read; each fact is computed from them when it is asked for.
#[derive(Debug, Clone, Copy, PartialEq, Eq)]
pub struct HeadFlags {
    bits: u16,
}

impl View for HeadFlags {
    type V = u16;

    closed spec fn view(&self) -> u16 {
        self.bits
    }
}

impl HeadFlags {
    /// The flags that the word `bits` holds.
    pub fn from_bits(bits: u16) -> (flags: Self)
        ensures
            flags@ == bits,
    {
        HeadFlags { bits }
    }

    /// Whether a y value of zero is the baseline (bit 0).
    pub fn y_value_zero_is_baseline(&self) -> (set: bool)
        ensures
            set == bit(self@, 0),
    {
        proof {
            lemma_masks(self.bits);
        }
        (self.bits & 0x0001) != 0
    }

    /// Whether the x position of the leftmost black bit is the left side bearing (bit 1).
    pub fn x_pos_leftmost_black_bit_lsb(&self) -> (set: bool)
        ensures
            set == bit(self@, 1),
    {
        proof {
            lemma_masks(self.bits);
        }
        (self.bits & 0x0002) != 0
    }

    /// Whether the scaled point size and the actual point size differ (bit 2).
    pub fn scaled_point_size_differs(&self) -> (set: bool)
        ensures
            set == bit(self@, 2),
    {
        proof {
            lemma_masks(self.bits);
        }
        (self.bits & 0x0004) != 0
    }

    /// Whether integer scaling is to be used in place of fractional (bit 3).
    pub fn use_integer_scaling(&self) -> (set: bool)
        ensures
            set == bit(self@, 3),
    {
        proof {
            lemma_masks(self.bits);
        }
        (self.bits & 0x0008) != 0
    }

    /// The flag of the Microsoft implementation of the TrueType scaler (bit 4).
    pub fn microsoft_scaler_flag(&self) -> (set: bool)
        ensures
            set == bit(self@, 4),
    {
        proof {
            lemma_masks(self.bits);
        }
        (self.bits & 0x0010) != 0
    }

    /// Whether the font is laid out vertically (bit 5).
    pub fn vertical_layout(&self) -> (set: bool)
        ensures
            set == bit(self@, 5),
    {
        proof {
            lemma_masks(self.bits);
        }
        (self.bits & 0x0020) != 0
    }

    /// Whether bit 6, which a well-formed font leaves clear, is set.
    pub fn must_be_zero(&self) -> (set: bool)
        ensures
            set == bit(self@, 6),
    {
        proof {
            lemma_masks(self.bits);
        }
        (self.bits & 0x0040) != 0
    }

    /// Whether the font needs layout for correct linguistic rendering (bit 7).
    pub fn requires_linguistic_layout(&self) -> (set: bool)
        ensures
            set == bit(self@, 7),
    {
        proof {
            lemma_masks(self.bits);
        }
        (self.bits & 0x0080) != 0
    }

    /// Whether the font is an AAT font with metamorphosis effects by default (bit 8).
    pub fn aat_default_metamorphosis(&self) -> (set: bool)
        ensures
            set == bit(self@, 8),
    {
        proof {
            lemma_masks(self.bits);
        }
        (self.bits & 0x0100) != 0
    }

    /// Whether the font holds any strong right-to-left glyphs (bit 9).
    pub fn strong_rtl_glyphs(&self) -> (set: bool)
        ensures
            set == bit(self@, 9),
    {
        proof {
            lemma_masks(self.bits);
        }
        (self.bits & 0x0200) != 0
    }

    /// Whether the font holds Indic-style rearrangement effects (bit 10).
    pub fn indic_rearrangement(&self) -> (set: bool)
        ensures
            set == bit(self@, 10),
    {
        proof {
            lemma_masks(self.bits);
        }
        (self.bits & 0x0400) != 0
    }

    /// Whether the glyphs are generic symbols for code point ranges (bit 14).
    pub fn generic_symbol_font(&self) -> (set: bool)
        ensures
            set == bit(self@, 14),
    {
        proof {
            lemma_masks(self.bits);
        }
        (self.bits & 0x4000) != 0
    }

    /// Whether bit 15, which is reserved and which a well-formed font leaves clear, is set.
    pub fn reserved(&self) -> (set: bool)
        ensures
            set == bit(self@, 15),
    {
        proof {
            lemma_masks(self.bits);
        }
        (self.bits & 0x8000) != 0
    }

    /// The number in the three bits that Adobe defines (bits 11 to 13).
    pub fn adobe_defined(&self) -> (value: u8)
        ensures
            value == bit_field(self@, 11, 3),
            value <= 7,
    {
        proof {
            lemma_masks(self.bits);
        }
        ((self.bits & 0x3800) >> 11) as u8
    }

    /// The sixteen bits as they were read.
    pub fn bits(&self) -> (word: u16)
        ensures
            word == self@,
    {
        self.bits
    }
}

/// What a `head` table says.
pub struct HeadView {
    pub version: u32,
    pub font_revision: u32,
    pub checksum_adjustment: u32,
    pub magic_number: u32,
    pub flags: u16,
    pub units_per_em: u16,
    pub created: i64,
    pub modified: i64,
    pub x_min: i16,
    pub y_min: i16,
    pub x_max: i16,
    pub y_max: i16,
    pub mac_style: u16,
    pub lowest_rec_ppem: u16,
    pub font_direction_hint: i16,
    pub index_to_loc_format: i16,
    pub glyph_data_format: i16,
}

/// The number of bytes that the fields of a `head` table take.
pub const HEAD_LENGTH: usize = 54;

/// The table that the first 54 bytes of `bytes` spell, each field at its
/// fixed place.
pub open spec fn head_of(bytes: Seq<u8>) -> HeadView {
    HeadView {
        version: u32_be(bytes, 0),
        font_revision: u32_be(bytes, 4),
        checksum_adjustment: u32_be(bytes, 8),
        magic_number: u32_be(bytes, 12),
        flags: u16_be(bytes, 16),
        units_per_em: u16_be(bytes, 18),
        created: i64_be(bytes, 20),
        modified: i64_be(bytes, 28),
        x_min: i16_be(bytes, 36),
        y_min: i16_be(bytes, 38),
        x_max: i16_be(bytes, 40),
        y_max: i16_be(bytes, 42),
        mac_style: u16_be(bytes, 44),
        lowest_rec_ppem: u16_be(bytes, 46),
        font_direction_hint: i16_be(bytes, 48),
        index_to_loc_format: i16_be(bytes, 50),
        glyph_data_format: i16_be(bytes, 52),
    }
}

/// The outcome of decoding a `head` table from `bytes`: they must be 54 at
/// least; what follows the first 54 is not looked at.
pub open spec fn decode_head(bytes: Seq<u8>) -> Result<HeadView, TableEncodingError> {
    if bytes.len() < HEAD_LENGTH {
        Err(TableEncodingError::InvalidBufferLength(HEAD_LENGTH, bytes.len() as usize))
    } else {
        Ok(head_of(bytes))
    }
}

/// The outcome of decoding the `head` table that lies at `location` in
/// `file`: the read fails where the file does not hold the whole region.
pub open spec fn head_at(file: Seq<u8>, location: TableMetadataView) -> Result<
    HeadView,
    VeroTypeError,
> {
    match table_bytes(file, location) {
        Some(region) => lift(decode_head(region)),
        None => Err(VeroTypeError::VeroBufReaderError(VeroBufReaderError::ReadError)),
    }
}

/// The `head` table: global facts about the font.
#[derive(Debug, Clone, Copy, PartialEq, Eq)]
pub struct Head {
    version: u32,
    font_revision: u32,
    checksum_adjustment: u32,
    magic_number: u32,
    flags: HeadFlags,
    units_per_em: u16,
    created: i64,
    modified: i64,
    x_min: i16,
    y_min: i16,
    x_max: i16,
    y_max: i16,
    mac_style: u16,
    lowest_rec_ppem: u16,
    font_direction_hint: i16,
    index_to_loc_format: i16,
    glyph_data_format: i16,
}

impl View for Head {
    type V = HeadView;

    closed spec fn view(&self) -> HeadView {
        HeadView {
            version: self.version,
            font_revision: self.font_revision,
            checksum_adjustment: self.checksum_adjustment,
            magic_number: self.magic_number,
            flags: self.flags@,
            units_per_em: self.units_per_em,
            created: self.created,
            modified: self.modified,
            x_min: self.x_min,
            y_min: self.y_min,
            x_max: self.x_max,
            y_max: self.y_max,
            mac_style: self.mac_style,
            lowest_rec_ppem: self.lowest_rec_ppem,
            font_direction_hint: self.font_direction_hint,
            index_to_loc_format: self.index_to_loc_format,
            glyph_data_format: self.glyph_data_format,
        }
    }
}

impl Head {
    /// Decodes the table from its bytes.
    pub fn from_buffer(buf: &[u8]) -> (outcome: Result<Self, TableEncodingError>)
        ensures
            view_of(outcome) == decode_head(buf@),
    {
        if buf.len() < HEAD_LENGTH {
            return Err(TableEncodingError::InvalidBufferLength(HEAD_LENGTH, buf.len()));
        }
        Ok(
            Head {
                version: read_u32_be(buf, 0),
                font_revision: read_u32_be(buf, 4),
                checksum_adjustment: read_u32_be(buf, 8),
                magic_number: read_u32_be(buf, 12),
                flags: HeadFlags::from_bits(read_u16_be(buf, 16)),
                units_per_em: read_u16_be(buf, 18),
                created: read_i64_be(buf, 20),
                modified: read_i64_be(buf, 28),
                x_min: read_i16_be(buf, 36),
                y_min: read_i16_be(buf, 38),
                x_max: read_i16_be(buf, 40),
                y_max: read_i16_be(buf, 42),
                mac_style: read_u16_be(buf, 44),
                lowest_rec_ppem: read_u16_be(buf, 46),
                font_direction_hint: read_i16_be(buf, 48),
                index_to_loc_format: read_i16_be(buf, 50),
                glyph_data_format: read_i16_be(buf, 52),
            },
        )
    }

    /// Reads the region that `metadata` gives from `reader` and decodes the
    /// table from it.
    pub fn from_reader(reader: &mut VeroBufReader, metadata: &TableMetadata) -> (outcome: Result<
        Self,
        VeroTypeError,
    >)
        ensures
            final(reader).bytes() == old(reader).bytes(),
            view_of(outcome) == head_at(old(reader).bytes(), metadata@),
            final(reader).cursor() == if table_bytes(old(reader).bytes(), metadata@) is Some {
                metadata@.offset + metadata@.length
            } else {
                metadata@.offset as int
            },
    {
        match reader.seek_to(metadata.offset() as u64) {
            Ok(()) => {},
            Err(error) => {
                return Err(VeroTypeError::from(error));
            },
        }
        let buf: Vec<u8> = match reader.read_bytes(metadata.length() as usize) {
            Ok(buf) => buf,
            Err(error) => {
                return Err(VeroTypeError::from(error));
            },
        };
        assert(table_bytes(old(reader).bytes(), metadata@) == Some(buf@)) by {
            assert(buf@ =~= table_bytes(old(reader).bytes(), metadata@).unwrap());
        }
        match Head::from_buffer(buf.as_slice()) {
            Ok(head) => Ok(head),
            Err(error) => Err(VeroTypeError::from(error)),
        }
    }

    /// The version of the table, as a 16.16 fixed-point number.
    pub fn version(&self) -> (value: u32)
        ensures
            value == self@.version,
    {
        self.version
    }

    /// The revision of the font, set by its maker.
    pub fn font_revision(&self) -> (value: u32)
        ensures
            value == self@.font_revision,
    {
        self.font_revision
    }

    /// The number that makes the checksum of the whole font come out right.
    pub fn checksum_adjustment(&self) -> (value: u32)
        ensures
            value == self@.checksum_adjustment,
    {
        self.checksum_adjustment
    }

    /// The magic number, `0x5F0F3CF5` in a well-formed font.
    pub fn magic_number(&self) -> (value: u32)
        ensures
            value == self@.magic_number,
    {
        self.magic_number
    }

    /// The flag word.
    pub fn flags(&self) -> (value: HeadFlags)
        ensures
            value@ == self@.flags,
    {
        self.flags
    }

    /// The number of font units in one em.
    pub fn units_per_em(&self) -> (value: u16)
        ensures
            value == self@.units_per_em,
    {
        self.units_per_em
    }

    /// When the font was created, in seconds since the font epoch.
    pub fn created(&self) -> (value: i64)
        ensures
            value == self@.created,
    {
        self.created
    }

    /// When the font was last modified, in seconds since the font epoch.
    pub fn modified(&self) -> (value: i64)
        ensures
            value == self@.modified,
    {
        self.modified
    }

    /// The least x of all glyph bounding boxes.
    pub fn x_min(&self) -> (value: i16)
        ensures
            value == self@.x_min,
    {
        self.x_min
    }

    /// The least y of all glyph bounding boxes.
    pub fn y_min(&self) -> (value: i16)
        ensures
            value == self@.y_min,
    {
        self.y_min
    }

    /// The greatest x of all glyph bounding boxes.
    pub fn x_max(&self) -> (value: i16)
        ensures
            value == self@.x_max,
    {
        self.x_max
    }

    /// The greatest y of all glyph bounding boxes.
    pub fn y_max(&self) -> (value: i16)
        ensures
            value == self@.y_max,
    {
        self.y_max
    }

    /// The style bits of the font.
    pub fn mac_style(&self) -> (value: u16)
        ensures
            value == self@.mac_style,
    {
        self.mac_style
    }

    /// The smallest size, in pixels per em, at which the font is readable.
    pub fn lowest_rec_ppem(&self) -> (value: u16)
        ensures
            value == self@.lowest_rec_ppem,
    {
        self.lowest_rec_ppem
    }

    /// A hint on the direction of the glyphs.
    pub fn font_direction_hint(&self) -> (value: i16)
        ensures
            value == self@.font_direction_hint,
    {
        self.font_direction_hint
    }

    /// The format of the offsets in the `loca` table: 0 for short, 1 for long.
    pub fn index_to_loc_format(&self) -> (value: i16)
        ensures
            value == self@.index_to_loc_format,
    {
        self.index_to_loc_format
    }

    /// The format of the glyph data.
    pub fn glyph_data_format(&self) -> (value: i16)
        ensures
            value == self@.glyph_data_format,
    {
        self.glyph_data_format
    }
}

} // verus!
