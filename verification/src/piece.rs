//! The canonical piece shape and its conversions.
//!
//! A [`PieceArray`] is one piece of archival history: exactly
//! [`PIECE_SIZE`] bytes laid out as record ‖ commitment ‖ witness, with no
//! padding in between. A [`Piece`] is an owning handle to one
//! [`PieceArray`]; its byte contents always live on the heap, so moving a
//! [`Piece`] never places the full buffer on the call stack.

use vstd::prelude::*;
use vstd::slice::slice_subrange;

use crate::bytes::push_all;
use crate::bytes::zero_bytes;
use crate::bytes::copy_range;
use crate::record::Record;
use crate::record::RecordCommitment;
use crate::record::RecordWitness;
use crate::wire::read_exact_bytes;
use crate::wire::wire_decoded_piece;
use crate::wire::wire_decodes;
use crate::PiecesError;
use crate::PIECE_SIZE;
use crate::RECORD_COMMITMENT_SIZE;
use crate::RECORD_SIZE;
use crate::RECORD_WITNESS_SIZE;

verus! {

/// A piece of archival history: the byte-exact concatenation of one record,
/// one commitment and one witness.
///
/// Together with the records root of the segment it belongs to, the record
/// and witness inside a piece let anyone verify that the piece belongs to
/// the actual archival history of the chain.
#[derive(Debug, Clone)]
pub struct PieceArray {
    record: Record,
    commitment: RecordCommitment,
    witness: RecordWitness,
}

impl PieceArray {
    /// The bytes of the record part.
    pub closed spec fn record_bytes(&self) -> Seq<u8> {
        self.record@
    }

    /// The bytes of the commitment part.
    pub closed spec fn commitment_bytes(&self) -> Seq<u8> {
        self.commitment@
    }

    /// The bytes of the witness part.
    pub closed spec fn witness_bytes(&self) -> Seq<u8> {
        self.witness@
    }

    /// Each part has exactly its declared size, so the piece as a whole has
    /// exactly [`PIECE_SIZE`] bytes.
    pub open spec fn wf(&self) -> bool {
        &&& self.record_bytes().len() == RECORD_SIZE
        &&& self.commitment_bytes().len() == RECORD_COMMITMENT_SIZE
        &&& self.witness_bytes().len() == RECORD_WITNESS_SIZE
    }

    /// Assemble a piece from its three parts.
    pub fn assemble(record: Record, commitment: RecordCommitment, witness: RecordWitness) -> (r:
        PieceArray)
        ensures
            r.record_bytes() == record@,
            r.commitment_bytes() == commitment@,
            r.witness_bytes() == witness@,
    {
        PieceArray { record, commitment, witness }
    }

    /// Build a piece from a byte buffer. Fails with
    /// [`PiecesError::LengthMismatch`] unless the buffer is exactly
    /// [`PIECE_SIZE`] bytes; on success the piece holds a copy of the bytes.
    pub fn from_bytes(bytes: &[u8]) -> (r: Result<PieceArray, PiecesError>)
        ensures
            bytes@.len() == PIECE_SIZE ==> (r matches Ok(p) && p.wf() && p@ == bytes@),
            bytes@.len() != PIECE_SIZE ==> r == Err::<PieceArray, PiecesError>(
                PiecesError::LengthMismatch,
            ),
    {
        if bytes.len() != PIECE_SIZE {
            return Err(PiecesError::LengthMismatch);
        }
        let record = Record::from_vec(copy_range(bytes, 0, RECORD_SIZE));
        let commitment = RecordCommitment::from_vec(
            copy_range(bytes, RECORD_SIZE, RECORD_COMMITMENT_SIZE),
        );
        let witness = RecordWitness::from_vec(
            copy_range(bytes, RECORD_SIZE + RECORD_COMMITMENT_SIZE, RECORD_WITNESS_SIZE),
        );
        let p = PieceArray { record, commitment, witness };
        assert(p@ =~= bytes@);
        Ok(p)
    }

    /// Split the piece into its parts: borrowed views of the record, the
    /// commitment and the witness, in that order, without copying.
    pub fn split(&self) -> (r: (&Record, &RecordCommitment, &RecordWitness))
        ensures
            r.0@ == self.record_bytes(),
            r.1@ == self.commitment_bytes(),
            r.2@ == self.witness_bytes(),
    {
        (&self.record, &self.commitment, &self.witness)
    }

    /// Split the piece into mutable views of the record, the commitment and
    /// the witness, in that order, without copying. Whatever the caller
    /// writes through the views is exactly what the piece holds afterwards.
    pub fn split_mut(&mut self) -> (r: (&mut Record, &mut RecordCommitment, &mut RecordWitness))
        ensures
            (*r.0)@ == old(self).record_bytes(),
            (*r.1)@ == old(self).commitment_bytes(),
            (*r.2)@ == old(self).witness_bytes(),
            final(self).record_bytes() == (*final(r.0))@,
            final(self).commitment_bytes() == (*final(r.1))@,
            final(self).witness_bytes() == (*final(r.2))@,
    {
        (&mut self.record, &mut self.commitment, &mut self.witness)
    }

    /// Record contained within the piece.
    pub fn record(&self) -> (r: &Record)
        ensures
            r@ == self.record_bytes(),
    {
        self.split().0
    }

    /// Mutable record contained within the piece.
    pub fn record_mut(&mut self) -> (r: &mut Record)
        ensures
            (*r)@ == old(self).record_bytes(),
            final(self).record_bytes() == (*final(r))@,
            final(self).commitment_bytes() == old(self).commitment_bytes(),
            final(self).witness_bytes() == old(self).witness_bytes(),
    {
        &mut self.record
    }

    /// Commitment contained within the piece.
    pub fn commitment(&self) -> (r: &RecordCommitment)
        ensures
            r@ == self.commitment_bytes(),
    {
        self.split().1
    }

    /// Mutable commitment contained within the piece.
    pub fn commitment_mut(&mut self) -> (r: &mut RecordCommitment)
        ensures
            (*r)@ == old(self).commitment_bytes(),
            final(self).commitment_bytes() == (*final(r))@,
            final(self).record_bytes() == old(self).record_bytes(),
            final(self).witness_bytes() == old(self).witness_bytes(),
    {
        &mut self.commitment
    }

    /// Witness contained within the piece.
    pub fn witness(&self) -> (r: &RecordWitness)
        ensures
            r@ == self.witness_bytes(),
    {
        self.split().2
    }

    /// Mutable witness contained within the piece.
    pub fn witness_mut(&mut self) -> (r: &mut RecordWitness)
        ensures
            (*r)@ == old(self).witness_bytes(),
            final(self).witness_bytes() == (*final(r))@,
            final(self).record_bytes() == old(self).record_bytes(),
            final(self).commitment_bytes() == old(self).commitment_bytes(),
    {
        &mut self.witness
    }

    /// Overwrite the whole piece with exactly [`PIECE_SIZE`] bytes: the
    /// write-access counterpart of [`PieceArray::to_bytes`]. The leading
    /// [`RECORD_SIZE`] bytes become the record, the next
    /// [`RECORD_COMMITMENT_SIZE`] the commitment, the rest the witness.
    pub fn copy_from(&mut self, bytes: &[u8])
        requires
            bytes@.len() == PIECE_SIZE,
        ensures
            final(self).wf(),
            final(self)@ == bytes@,
    {
        self.record.copy_from(slice_subrange(bytes, 0, RECORD_SIZE));
        self.commitment.copy_from(
            slice_subrange(bytes, RECORD_SIZE, RECORD_SIZE + RECORD_COMMITMENT_SIZE),
        );
        self.witness.copy_from(
            slice_subrange(bytes, RECORD_SIZE + RECORD_COMMITMENT_SIZE, PIECE_SIZE),
        );
        assert(self@ =~= bytes@);
    }

    /// The piece's bytes: record ‖ commitment ‖ witness. This is also the
    /// piece's wire encoding, exactly [`PIECE_SIZE`] raw bytes.
    pub fn to_bytes(&self) -> (r: Vec<u8>)
        ensures
            r@ == self@,
    {
        let mut r: Vec<u8> = Vec::new();
        push_all(&mut r, self.record.as_bytes());
        push_all(&mut r, self.commitment.as_bytes());
        push_all(&mut r, self.witness.as_bytes());
        assert(r@ =~= self@);
        r
    }
}

impl View for PieceArray {
    type V = Seq<u8>;

    /// A piece is its bytes: the three parts concatenated with no padding.
    open spec fn view(&self) -> Seq<u8> {
        self.record_bytes() + self.commitment_bytes() + self.witness_bytes()
    }
}

impl Default for PieceArray {
    /// A zero-filled piece: the placeholder state before record, commitment
    /// and witness are written in.
    fn default() -> (r: PieceArray)
        ensures
            r.wf(),
            r@ == zero_bytes(PIECE_SIZE as nat),
    {
        let r = PieceArray {
            record: Record::default(),
            commitment: RecordCommitment::default(),
            witness: RecordWitness::default(),
        };
        assert(r@ =~= zero_bytes(PIECE_SIZE as nat));
        r
    }
}

/// Law: splitting a piece and concatenating the parts gives the piece's
/// bytes back. The parts are the three contiguous, non-overlapping byte
/// ranges of the piece, with lengths [`RECORD_SIZE`],
/// [`RECORD_COMMITMENT_SIZE`] and [`RECORD_WITNESS_SIZE`].
pub proof fn lemma_split_concat(p: PieceArray)
    requires
        p.wf(),
    ensures
        p@ == p.record_bytes() + p.commitment_bytes() + p.witness_bytes(),
        p@.len() == PIECE_SIZE,
        p.record_bytes() == p@.subrange(0, RECORD_SIZE as int),
        p.commitment_bytes() == p@.subrange(
            RECORD_SIZE as int,
            RECORD_SIZE as int + RECORD_COMMITMENT_SIZE as int,
        ),
        p.witness_bytes() == p@.subrange(
            RECORD_SIZE as int + RECORD_COMMITMENT_SIZE as int,
            PIECE_SIZE as int,
        ),
{
    assert(p.record_bytes() =~= p@.subrange(0, RECORD_SIZE as int));
    assert(p.commitment_bytes() =~= p@.subrange(
        RECORD_SIZE as int,
        RECORD_SIZE as int + RECORD_COMMITMENT_SIZE as int,
    ));
    assert(p.witness_bytes() =~= p@.subrange(
        RECORD_SIZE as int + RECORD_COMMITMENT_SIZE as int,
        PIECE_SIZE as int,
    ));
}

/// A piece of archival history that owns its buffer.
///
/// Semantically identical to [`PieceArray`]; it exists as the unit in which
/// single pieces are moved and stored. All its bytes live on the heap.
#[derive(Debug, Clone)]
pub struct Piece {
    array: PieceArray,
}

impl Piece {
    /// The piece array inside this handle.
    pub closed spec fn spec_array(&self) -> PieceArray {
        self.array
    }

    /// A piece is well-formed when the array it owns is.
    pub open spec fn wf(&self) -> bool {
        self.spec_array().wf()
    }

    /// Take ownership of a piece array.
    pub fn from_array(array: PieceArray) -> (r: Piece)
        ensures
            r.spec_array() == array,
    {
        Piece { array }
    }

    /// Borrow the piece array inside this handle.
    pub fn as_array(&self) -> (r: &PieceArray)
        ensures
            *r == self.spec_array(),
    {
        &self.array
    }

    /// Mutably borrow the piece array inside this handle.
    pub fn as_array_mut(&mut self) -> (r: &mut PieceArray)
        ensures
            *r == old(self).spec_array(),
            final(self).spec_array() == *final(r),
    {
        &mut self.array
    }

    /// Give up the handle and return the piece array it owns.
    pub fn into_array(self) -> (r: PieceArray)
        ensures
            r == self.spec_array(),
    {
        self.array
    }

    /// Build a piece from a borrowed byte buffer. Fails with
    /// [`PiecesError::LengthMismatch`] unless the buffer is exactly
    /// [`PIECE_SIZE`] bytes; on success the piece holds a copy of the bytes.
    pub fn try_from_slice(bytes: &[u8]) -> (r: Result<Piece, PiecesError>)
        ensures
            bytes@.len() == PIECE_SIZE ==> (r matches Ok(p) && p.wf() && p@ == bytes@),
            bytes@.len() != PIECE_SIZE ==> r == Err::<Piece, PiecesError>(
                PiecesError::LengthMismatch,
            ),
    {
        match PieceArray::from_bytes(bytes) {
            Ok(array) => Ok(Piece { array }),
            Err(e) => Err(e),
        }
    }

    /// Build a piece from an owned byte buffer, with the same length
    /// contract as [`Piece::try_from_slice`].
    pub fn try_from_vec(bytes: Vec<u8>) -> (r: Result<Piece, PiecesError>)
        ensures
            bytes@.len() == PIECE_SIZE ==> (r matches Ok(p) && p.wf() && p@ == bytes@),
            bytes@.len() != PIECE_SIZE ==> r == Err::<Piece, PiecesError>(
                PiecesError::LengthMismatch,
            ),
    {
        Piece::try_from_slice(bytes.as_slice())
    }

    /// Wire-decode a piece: read exactly [`PIECE_SIZE`] bytes from the front
    /// of the input. Fails with [`PiecesError::DecodeTruncated`] when fewer
    /// remain. The buffer is read directly into heap storage; no
    /// intermediate piece-sized value ever sits on the call stack, so
    /// decoding is safe in environments with small stacks.
    pub fn decode(input: &[u8]) -> (r: Result<Piece, PiecesError>)
        ensures
            wire_decodes(input@) ==> (r matches Ok(p) && p.wf() && p@ == wire_decoded_piece(
                input@,
            )),
            !wire_decodes(input@) ==> r == Err::<Piece, PiecesError>(PiecesError::DecodeTruncated),
    {
        match read_exact_bytes(input, PIECE_SIZE) {
            Ok(bytes) => {
                match Piece::try_from_vec(bytes) {
                    Ok(piece) => Ok(piece),
                    Err(_) => Err(PiecesError::DecodeTruncated),
                }
            },
            Err(_) => Err(PiecesError::DecodeTruncated),
        }
    }

    /// Wire-encode the piece: exactly [`PIECE_SIZE`] raw bytes, record ‖
    /// commitment ‖ witness, with no length prefix.
    pub fn encode(&self) -> (r: Vec<u8>)
        requires
            self.wf(),
        ensures
            r@ == self@,
            r@.len() == PIECE_SIZE,
    {
        self.array.to_bytes()
    }

    /// Record contained within the piece.
    pub fn record(&self) -> (r: &Record)
        ensures
            r@ == self.spec_array().record_bytes(),
    {
        self.array.record()
    }

    /// Commitment contained within the piece.
    pub fn commitment(&self) -> (r: &RecordCommitment)
        ensures
            r@ == self.spec_array().commitment_bytes(),
    {
        self.array.commitment()
    }

    /// Witness contained within the piece.
    pub fn witness(&self) -> (r: &RecordWitness)
        ensures
            r@ == self.spec_array().witness_bytes(),
    {
        self.array.witness()
    }
}

impl View for Piece {
    type V = Seq<u8>;

    /// A piece handle is the bytes of the piece array it owns.
    open spec fn view(&self) -> Seq<u8> {
        self.spec_array()@
    }
}

impl Default for Piece {
    /// A zero-filled piece: the placeholder state before data is written in.
    fn default() -> (r: Piece)
        ensures
            r.wf(),
            r@ == zero_bytes(PIECE_SIZE as nat),
    {
        Piece { array: PieceArray::default() }
    }
}

} // verus!
