//! Fixed-size units of archival history for a proof-of-storage network.
//!
//! The central type is a piece: a fixed-size buffer laid out as a record
//! (the data-bearing part) followed by a commitment and a witness (compact
//! cryptographic values that let the piece be verified against a segment
//! root). Pieces are grouped into segments and batches, and travel over the
//! wire as exactly [`PIECE_SIZE`] raw bytes. All sizes are frozen at network
//! launch and may never change without breaking published history.

use vstd::prelude::*;

pub mod bytes;
pub mod flat_pieces;
pub mod piece;
pub mod record;
pub mod segment;
pub mod wire;

verus! {

/// Full encoded width of one cryptographic field element, in bytes.
pub const SCALAR_FULL_BYTES: usize = 32;

/// Largest number of bytes that always deserializes back into a valid field
/// element without modular-reduction ambiguity.
pub const SCALAR_SAFE_BYTES: usize = 31;

/// Byte size of one piece of archival history. Even, and a network-wide
/// constant frozen forever once the network is launched.
pub const PIECE_SIZE: usize = 31_744;

/// Byte size of the record commitment attached to each record.
pub const RECORD_COMMITMENT_SIZE: usize = 48;

/// Byte size of the record witness attached to each record.
pub const RECORD_WITNESS_SIZE: usize = 48;

/// Byte size of the record contained in a piece; what is left of a piece
/// after the commitment and the witness. A multiple of [`SCALAR_FULL_BYTES`].
/// [`lemma_constants_consistent`] proves the value from the other constants.
pub const RECORD_SIZE: usize = 31_648;

/// Number of full scalar chunks in one record: `RECORD_SIZE / SCALAR_FULL_BYTES`.
pub const RECORD_NUM_CHUNKS: usize = 989;

/// Byte size of one raw (pre-archival) record: the same number of chunks as
/// an archived record, each holding only the safe scalar bytes, so
/// `RECORD_NUM_CHUNKS * SCALAR_SAFE_BYTES`.
pub const RAW_RECORD_SIZE: usize = 30_659;

/// Number of pieces one recorded history segment is archived into:
/// half source pieces and half parity pieces.
pub const PIECES_IN_SEGMENT: usize = 256;

/// Number of raw records in one recorded history segment: only the source
/// half of the segment's pieces carries raw data.
pub const RAW_RECORDS_IN_SEGMENT: usize = 128;

/// Byte size of one recorded history segment before archiving:
/// `RAW_RECORD_SIZE * RAW_RECORDS_IN_SEGMENT`.
pub const RECORDED_HISTORY_SEGMENT_SIZE: usize = 3_924_352;

/// A failed conversion or decode of a piece.
#[derive(Debug, Clone, Copy, PartialEq, Eq, Structural)]
pub enum PiecesError {
    /// A byte buffer offered as a whole piece was not exactly
    /// [`PIECE_SIZE`] bytes long.
    LengthMismatch,
    /// A wire buffer ended before the [`PIECE_SIZE`] bytes of a piece could
    /// be read.
    DecodeTruncated,
}

impl PiecesError {
    /// Human-readable description of the failure.
    pub fn message(&self) -> (r: &'static str)
        ensures
            *self == PiecesError::LengthMismatch ==> r@ == "not a piece: length is not the piece size"@,
            *self == PiecesError::DecodeTruncated ==> r@ == "could not decode Piece: input truncated"@,
    {
        match self {
            PiecesError::LengthMismatch => "not a piece: length is not the piece size",
            PiecesError::DecodeTruncated => "could not decode Piece: input truncated",
        }
    }
}

/// Law: the global size constants are consistent. A record plus its
/// commitment and witness fills a piece exactly; a record is a positive
/// whole number of full scalar chunks; a raw record is the same number of
/// safe scalar chunks; and a segment is exactly
/// [`RAW_RECORDS_IN_SEGMENT`] raw records, half of
/// [`PIECES_IN_SEGMENT`]. Any inconsistency among the frozen constants
/// would fail here, at build time, never at runtime.
pub proof fn lemma_constants_consistent()
    ensures
        RECORD_SIZE == PIECE_SIZE - RECORD_COMMITMENT_SIZE - RECORD_WITNESS_SIZE,
        RECORD_SIZE > 0,
        RECORD_SIZE % SCALAR_FULL_BYTES == 0,
        RECORD_NUM_CHUNKS == RECORD_SIZE / SCALAR_FULL_BYTES,
        RECORD_SIZE == RECORD_NUM_CHUNKS * SCALAR_FULL_BYTES,
        RAW_RECORD_SIZE == RECORD_NUM_CHUNKS * SCALAR_SAFE_BYTES,
        RAW_RECORD_SIZE > 0,
        RAW_RECORD_SIZE % SCALAR_SAFE_BYTES == 0,
        RAW_RECORDS_IN_SEGMENT == PIECES_IN_SEGMENT / 2,
        RECORDED_HISTORY_SEGMENT_SIZE == RAW_RECORD_SIZE * RAW_RECORDS_IN_SEGMENT,
        PIECE_SIZE % 2 == 0,
{
}

} // verus!
