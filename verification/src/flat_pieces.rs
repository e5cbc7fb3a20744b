//! A contiguous batch of pieces, one segment's worth at a time.
//!
//! [`FlatPieces`] owns a sequence of [`PieceArray`] values laid out back to
//! back. Within a batch, pieces alternate by position: even indices hold
//! source pieces (derived directly from original data), odd indices hold
//! parity pieces (erasure-coding redundancy).

use vstd::prelude::*;

use crate::bytes::push_all;
use crate::bytes::zero_bytes;
use crate::piece::PieceArray;
use crate::PIECE_SIZE;

verus! {

/// Number of source pieces in a batch of `n` pieces: the even positions,
/// one more than parity when `n` is odd.
pub open spec fn source_count(n: nat) -> nat {
    (n + 1) / 2
}

/// Number of parity pieces in a batch of `n` pieces: the odd positions.
pub open spec fn parity_count(n: nat) -> nat {
    n / 2
}

/// Flat representation of multiple pieces concatenated, for efficient bulk
/// archiving and verification.
#[derive(Debug, Clone)]
pub struct FlatPieces {
    pieces: Vec<PieceArray>,
}

impl View for FlatPieces {
    type V = Seq<PieceArray>;

    closed spec fn view(&self) -> Seq<PieceArray> {
        self.pieces@
    }
}

impl FlatPieces {
    /// Every piece in the batch is well-formed.
    pub open spec fn wf(&self) -> bool {
        forall|i: int| 0 <= i < self@.len() ==> (#[trigger] self@[i]).wf()
    }

    /// Allocate a batch of `piece_count` zero-filled pieces.
    pub fn new(piece_count: usize) -> (r: FlatPieces)
        ensures
            r.wf(),
            r@.len() == piece_count,
            forall|i: int| 0 <= i < piece_count ==> #[trigger] r@[i]@ == zero_bytes(
                PIECE_SIZE as nat,
            ),
    {
        let mut pieces: Vec<PieceArray> = Vec::new();
        let mut i: usize = 0;
        while i < piece_count
            invariant
                i <= piece_count,
                pieces@.len() == i,
                forall|j: int| 0 <= j < i ==> (#[trigger] pieces@[j]).wf(),
                forall|j: int| 0 <= j < i ==> #[trigger] pieces@[j]@ == zero_bytes(
                    PIECE_SIZE as nat,
                ),
            decreases piece_count - i,
        {
            pieces.push(PieceArray::default());
            i = i + 1;
        }
        FlatPieces { pieces }
    }

    /// Number of pieces in the batch.
    pub fn len(&self) -> (r: usize)
        ensures
            r == self@.len(),
    {
        self.pieces.len()
    }

    /// Borrow the piece at `index`.
    pub fn piece_at(&self, index: usize) -> (r: &PieceArray)
        requires
            index < self@.len(),
        ensures
            *r == self@[index as int],
    {
        &self.pieces[index]
    }

    /// Mutably borrow the piece at `index`.
    pub fn piece_at_mut(&mut self, index: usize) -> (r: &mut PieceArray)
        requires
            index < old(self)@.len(),
        ensures
            *r == old(self)@[index as int],
            final(self)@ == old(self)@.update(index as int, *final(r)),
    {
        &mut self.pieces[index]
    }

    /// Extract the batch's pieces.
    pub fn into_inner(self) -> (r: Vec<PieceArray>)
        ensures
            r@ == self@,
    {
        self.pieces
    }

    /// The source pieces: those at even positions 0, 2, 4, …, in order.
    /// Empty for an empty batch; one more element than [`FlatPieces::parity`]
    /// when the batch has an odd number of pieces.
    pub fn source(&self) -> (r: Vec<&PieceArray>)
        ensures
            r@.len() == source_count(self@.len()),
            forall|i: int| 0 <= i < r@.len() ==> *(#[trigger] r@[i]) == self@[2 * i],
    {
        let n = self.pieces.len();
        let count = n / 2 + n % 2;
        let mut r: Vec<&PieceArray> = Vec::new();
        let mut i: usize = 0;
        while i < count
            invariant
                n == self@.len(),
                count == source_count(self@.len()),
                i <= count,
                r@.len() == i,
                forall|j: int| 0 <= j < i ==> *(#[trigger] r@[j]) == self@[2 * j],
            decreases count - i,
        {
            assert(2 * i < n);
            r.push(&self.pieces[2 * i]);
            i = i + 1;
        }
        r
    }

    /// The parity pieces: those at odd positions 1, 3, 5, …, in order.
    /// Empty for an empty or single-piece batch.
    pub fn parity(&self) -> (r: Vec<&PieceArray>)
        ensures
            r@.len() == parity_count(self@.len()),
            forall|i: int| 0 <= i < r@.len() ==> *(#[trigger] r@[i]) == self@[2 * i + 1],
    {
        let n = self.pieces.len();
        let count = n / 2;
        let mut r: Vec<&PieceArray> = Vec::new();
        let mut i: usize = 0;
        while i < count
            invariant
                n == self@.len(),
                count == parity_count(self@.len()),
                i <= count,
                r@.len() == i,
                forall|j: int| 0 <= j < i ==> *(#[trigger] r@[j]) == self@[2 * j + 1],
            decreases count - i,
        {
            assert(2 * i + 1 < n);
            r.push(&self.pieces[2 * i + 1]);
            i = i + 1;
        }
        r
    }

    /// Mutably borrow the source piece at source position `index`: the
    /// batch's piece at position `2 * index`.
    pub fn source_mut(&mut self, index: usize) -> (r: &mut PieceArray)
        requires
            index < source_count(old(self)@.len()),
        ensures
            *r == old(self)@[2 * index as int],
            final(self)@ == old(self)@.update(2 * index as int, *final(r)),
    {
        let n = self.pieces.len();
        assert(2 * index < n);
        &mut self.pieces[2 * index]
    }

    /// Mutably borrow the parity piece at parity position `index`: the
    /// batch's piece at position `2 * index + 1`.
    pub fn parity_mut(&mut self, index: usize) -> (r: &mut PieceArray)
        requires
            index < parity_count(old(self)@.len()),
        ensures
            *r == old(self)@[2 * index as int + 1],
            final(self)@ == old(self)@.update(2 * index as int + 1, *final(r)),
    {
        let n = self.pieces.len();
        assert(2 * index + 1 < n);
        &mut self.pieces[2 * index + 1]
    }

    /// The whole batch as one contiguous byte buffer: the pieces' bytes
    /// concatenated in order, `len() * PIECE_SIZE` bytes in all.
    pub fn to_bytes(&self) -> (r: Vec<u8>)
        requires
            self.wf(),
            self@.len() * PIECE_SIZE <= usize::MAX,
        ensures
            r@.len() == self@.len() * PIECE_SIZE,
            forall|i: int|
                0 <= i < self@.len() ==> #[trigger] r@.subrange(
                    i * PIECE_SIZE,
                    i * PIECE_SIZE + PIECE_SIZE,
                ) == self@[i]@,
    {
        let n = self.pieces.len();
        let mut r: Vec<u8> = Vec::new();
        let mut i: usize = 0;
        while i < n
            invariant
                self.wf(),
                n == self@.len(),
                self@.len() * PIECE_SIZE <= usize::MAX,
                i <= n,
                r@.len() == i * PIECE_SIZE,
                forall|j: int|
                    0 <= j < i ==> #[trigger] r@.subrange(
                        j * PIECE_SIZE,
                        j * PIECE_SIZE + PIECE_SIZE,
                    ) == self@[j]@,
            decreases n - i,
        {
            let ghost before = r@;
            proof {
                assert((i + 1) * PIECE_SIZE <= n * PIECE_SIZE) by (nonlinear_arith)
                    requires
                        i + 1 <= n,
                        PIECE_SIZE > 0,
                ;
            }
            let piece_bytes = self.pieces[i].to_bytes();
            push_all(&mut r, piece_bytes.as_slice());
            proof {
                crate::piece::lemma_split_concat(self@[i as int]);
            }
            assert forall|j: int|
                0 <= j < i + 1 implies #[trigger] r@.subrange(
                j * PIECE_SIZE,
                j * PIECE_SIZE + PIECE_SIZE,
            ) == self@[j]@ by {
                if j < i {
                    assert(before.subrange(j * PIECE_SIZE, j * PIECE_SIZE + PIECE_SIZE)
                        == self@[j]@);
                    assert(r@.subrange(j * PIECE_SIZE, j * PIECE_SIZE + PIECE_SIZE)
                        =~= before.subrange(j * PIECE_SIZE, j * PIECE_SIZE + PIECE_SIZE));
                } else {
                    assert(r@.subrange(j * PIECE_SIZE, j * PIECE_SIZE + PIECE_SIZE) =~= self@[j]@);
                }
            }
            i = i + 1;
        }
        r
    }

    /// A batch holding one piece.
    pub fn from_piece(piece: PieceArray) -> (r: FlatPieces)
        ensures
            r@.len() == 1,
            r@[0] == piece,
    {
        let mut pieces: Vec<PieceArray> = Vec::new();
        pieces.push(piece);
        FlatPieces { pieces }
    }
}

} // verus!
