//! Decoding of the TrueType/OpenType font container: the offset header, the
//! table directory, and the `head` and `name` tables, all big-endian and
//! positional.
//!
//! A font file begins with an offset header of twelve bytes, which says how
//! many tables the font has. The table directory follows, with one entry of
//! sixteen bytes for each table: a tag of four bytes and the place and
//! length of the table in the file. The tables themselves lie wherever the
//! directory says.
//!
//! [`buffer`] holds the bytes of a file with a cursor into them. [`tables`]
//! decodes the header, the directory and the tables; [`bytes`] says which
//! numbers the bytes spell.
//!
//! What a decoder returns is stated as a function of the bytes it is given:
//! for each there is a `spec` function that gives its outcome, the decoded
//! value or the error, and the decoder is proved to compute it. No decoder
//! panics, whatever the bytes.
use crate::buffer::VeroBufReaderError;
use crate::tables::{RequiredTables, TableEncodingError};
use vstd::prelude::*;
use vstd::std_specs::convert::FromSpecImpl;

pub mod buffer;
pub mod bytes;
pub mod tables;

verus! {

/// Every way in which decoding a font can fail.
#[derive(Debug, Clone, Copy, PartialEq, Eq)]
pub enum VeroTypeError {
    /// The bytes of a region do not have the layout of what they should hold.
    TableEncodingError(TableEncodingError),
    /// The byte source could not be positioned or ran out of bytes.
    VeroBufReaderError(VeroBufReaderError),
    /// A table was asked for that the directory does not list.
    MissingRequiredTable(RequiredTables),
}

impl From<TableEncodingError> for VeroTypeError {
    fn from(error: TableEncodingError) -> (wrapped: Self) {
        VeroTypeError::TableEncodingError(error)
    }
}

impl FromSpecImpl<TableEncodingError> for VeroTypeError {
    open spec fn obeys_from_spec() -> bool {
        true
    }

    open spec fn from_spec(error: TableEncodingError) -> Self {
        VeroTypeError::TableEncodingError(error)
    }
}

impl From<VeroBufReaderError> for VeroTypeError {
    fn from(error: VeroBufReaderError) -> (wrapped: Self) {
        VeroTypeError::VeroBufReaderError(error)
    }
}

impl FromSpecImpl<VeroBufReaderError> for VeroTypeError {
    open spec fn obeys_from_spec() -> bool {
        true
    }

    open spec fn from_spec(error: VeroBufReaderError) -> Self {
        VeroTypeError::VeroBufReaderError(error)
    }
}

/// The outcome of a decoder with the decoded value replaced by its view.
pub open spec fn view_of<T: View, E>(outcome: Result<T, E>) -> Result<T::V, E> {
    match outcome {
        Ok(value) => Ok(value@),
        Err(error) => Err(error),
    }
}

/// The outcome of decoding a region as an outcome of decoding the font.
pub open spec fn lift<V>(outcome: Result<V, TableEncodingError>) -> Result<V, VeroTypeError> {
    match outcome {
        Ok(value) => Ok(value),
        Err(error) => Err(VeroTypeError::TableEncodingError(error)),
    }
}

} // verus!
