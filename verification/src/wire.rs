//! The wire-decode boundary: reading a piece's bytes from an input buffer.
//!
//! A piece travels as exactly [`PIECE_SIZE`] raw bytes. The read itself is
//! done by the SCALE codec, behind a trusted wrapper; everything decided
//! about the bytes afterwards is verified in [`crate::piece`].

use vstd::prelude::*;

use crate::PIECE_SIZE;

verus! {

/// The SCALE codec's error value, opaque to this crate; it is only ever
/// mapped to [`crate::PiecesError::DecodeTruncated`].
#[verifier::external_type_specification]
#[verifier::external_body]
pub struct ExCodecError(parity_scale_codec::Error);

/// Whether a wire buffer holds enough bytes to decode one piece.
pub open spec fn wire_decodes(input: Seq<u8>) -> bool {
    input.len() >= PIECE_SIZE
}

/// The bytes of the piece decoded from the front of a wire buffer.
pub open spec fn wire_decoded_piece(input: Seq<u8>) -> Seq<u8> {
    input.take(PIECE_SIZE as int)
}

/// Relies on `parity_scale_codec::decode_vec_with_len` with `u8` items on a
/// byte-slice input: it reads the first `len` bytes of the slice, in order,
/// into a heap-allocated buffer, and returns an error when fewer than `len`
/// bytes remain.
#[verifier::external_body]
pub(crate) fn read_exact_bytes(input: &[u8], len: usize) -> (r: Result<Vec<u8>, parity_scale_codec::Error>)
    ensures
        r matches Ok(v) ==> input@.len() >= len && v@ == input@.take(len as int),
        r is Err ==> input@.len() < len,
{
    let mut remaining = input;
    parity_scale_codec::decode_vec_with_len::<u8, &[u8]>(&mut remaining, len)
}

/// Law: wire decode and wire encode are exact inverses. Any buffer of
/// exactly [`PIECE_SIZE`] bytes decodes, and the decoded piece's bytes —
/// which are its wire encoding — equal the buffer.
pub proof fn lemma_wire_round_trip(b: Seq<u8>)
    requires
        b.len() == PIECE_SIZE,
    ensures
        wire_decodes(b),
        wire_decoded_piece(b) == b,
{
    assert(wire_decoded_piece(b) =~= b);
}

} // verus!
