//! The `cmap` table: from character codes to glyphs. Only the shape of its
//! header and of the headers of its subtables is laid down here.
use vstd::prelude::*;

verus! {

/// The header of the `cmap` table.
#[derive(Debug)]
pub struct Cmap {
    /// The version of the table, zero in a well-formed font.
    version: u16,
    /// The number of encoding subtables.
    subtables: u16,
}

/// The header of one encoding subtable of the `cmap` table.
#[derive(Debug)]
pub struct CmapSub {
    /// The platform for which the subtable is meant.
    platform_id: u16,
    /// The encoding, as the platform numbers it.
    platform_specific_id: u16,
    /// The offset of the mapping table.
    offset: u32,
}

} // verus!
