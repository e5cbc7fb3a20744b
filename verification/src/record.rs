//! The data-bearing part of a piece and the two cryptographic values
//! attached to it.
//!
//! A [`Record`] is a fixed buffer of [`RECORD_SIZE`] bytes holding archived
//! (post-erasure-coding) data, viewed as [`RECORD_NUM_CHUNKS`] scalar chunks
//! of [`SCALAR_FULL_BYTES`] bytes each. A [`RecordCommitment`] and a
//! [`RecordWitness`] are the fixed 48-byte values that bind a record to its
//! segment root.

use vstd::prelude::*;
use vstd::slice::slice_to_vec;

use crate::bytes::copy_range;
use crate::bytes::push_all;
use crate::bytes::zero_bytes;
use crate::bytes::zero_vec;
use crate::RECORD_COMMITMENT_SIZE;
use crate::RECORD_NUM_CHUNKS;
use crate::RECORD_SIZE;
use crate::RECORD_WITNESS_SIZE;
use crate::SCALAR_FULL_BYTES;
use crate::SCALAR_SAFE_BYTES;

verus! {

/// The `i`-th full scalar chunk of a byte sequence: the [`SCALAR_FULL_BYTES`]
/// bytes starting at offset `i * SCALAR_FULL_BYTES`.
pub open spec fn full_chunk(s: Seq<u8>, i: int) -> Seq<u8> {
    s.subrange(i * SCALAR_FULL_BYTES, i * SCALAR_FULL_BYTES + SCALAR_FULL_BYTES)
}

/// The `i`-th safe scalar chunk of a byte sequence: the leading
/// [`SCALAR_SAFE_BYTES`] bytes of the `i`-th full chunk.
pub open spec fn safe_chunk(s: Seq<u8>, i: int) -> Seq<u8> {
    s.subrange(i * SCALAR_FULL_BYTES, i * SCALAR_FULL_BYTES + SCALAR_SAFE_BYTES)
}

/// All full scalar chunks of a byte sequence, in order.
pub open spec fn full_chunks(s: Seq<u8>) -> Seq<Seq<u8>> {
    Seq::new(s.len() / (SCALAR_FULL_BYTES as nat), |i: int| full_chunk(s, i))
}

/// Law: a safe chunk is exactly the leading [`SCALAR_SAFE_BYTES`]-byte
/// prefix of the corresponding full chunk.
pub proof fn lemma_safe_chunk_is_full_chunk_prefix(s: Seq<u8>, i: int)
    requires
        0 <= i,
        i * SCALAR_FULL_BYTES + SCALAR_FULL_BYTES <= s.len(),
    ensures
        safe_chunk(s, i) == full_chunk(s, i).subrange(0, SCALAR_SAFE_BYTES as int),
{
    assert(safe_chunk(s, i) =~= full_chunk(s, i).subrange(0, SCALAR_SAFE_BYTES as int));
}

/// Law: the full scalar chunks of a record-sized buffer cover it exactly.
/// There are exactly [`RECORD_NUM_CHUNKS`] of them and concatenating them in
/// order gives the buffer back, with no gap and no overlap.
pub proof fn lemma_record_chunks_cover(s: Seq<u8>)
    requires
        s.len() == RECORD_SIZE,
    ensures
        full_chunks(s).len() == RECORD_NUM_CHUNKS,
        full_chunks(s).flatten() == s,
{
    lemma_full_chunks_cover(s);
}

/// Law: the full scalar chunks of a buffer whose length is a whole number of
/// chunks cover it exactly; concatenating them in order gives the buffer
/// back, with no gap and no overlap.
pub proof fn lemma_full_chunks_cover(s: Seq<u8>)
    requires
        s.len() % (SCALAR_FULL_BYTES as nat) == 0,
    ensures
        full_chunks(s).flatten() == s,
    decreases s.len(),
{
    if s.len() == 0 {
        assert(full_chunks(s).flatten() =~= s);
    } else {
        let w = SCALAR_FULL_BYTES as int;
        let rest = s.skip(w);
        assert(rest.len() % (SCALAR_FULL_BYTES as nat) == 0) by {
            assert(s.len() == rest.len() + SCALAR_FULL_BYTES);
        }
        lemma_full_chunks_cover(rest);
        assert(full_chunks(s).drop_first() =~= full_chunks(rest)) by {
            assert forall|i: int| 0 <= i < full_chunks(rest).len() implies full_chunk(
                s,
                i + 1,
            ) =~= full_chunk(rest, i) by {
                assert((i + 1) * w == i * w + w);
            }
        }
        assert(full_chunks(s).first() == full_chunk(s, 0));
        assert(full_chunks(s).flatten() == full_chunk(s, 0) + full_chunks(rest).flatten());
        assert(full_chunk(s, 0) + rest =~= s);
    }
}

/// Record contained within a piece: [`RECORD_SIZE`] bytes of archived data,
/// a whole number of full scalar chunks. The bytes live on the heap.
#[derive(Debug, Clone)]
pub struct Record {
    bytes: Vec<u8>,
}

impl View for Record {
    type V = Seq<u8>;

    closed spec fn view(&self) -> Seq<u8> {
        self.bytes@
    }
}

impl Record {
    /// A record holds exactly [`RECORD_SIZE`] bytes.
    pub open spec fn wf(&self) -> bool {
        self@.len() == RECORD_SIZE
    }

    /// Build a record from exactly [`RECORD_SIZE`] bytes.
    pub fn from_vec(bytes: Vec<u8>) -> (r: Record)
        requires
            bytes@.len() == RECORD_SIZE,
        ensures
            r.wf(),
            r@ == bytes@,
    {
        Record { bytes }
    }

    /// The record's bytes, without copying.
    pub fn as_bytes(&self) -> (r: &[u8])
        ensures
            r@ == self@,
    {
        self.bytes.as_slice()
    }

    /// Overwrite the record with exactly [`RECORD_SIZE`] bytes: the
    /// write-access counterpart of [`Record::as_bytes`].
    pub fn copy_from(&mut self, bytes: &[u8])
        requires
            bytes@.len() == RECORD_SIZE,
        ensures
            final(self).wf(),
            final(self)@ == bytes@,
    {
        self.bytes = slice_to_vec(bytes);
    }

    /// All full scalar chunks of the record, in order: exactly
    /// [`RECORD_NUM_CHUNKS`] chunks of [`SCALAR_FULL_BYTES`] bytes each,
    /// covering the record with no gap and no overlap.
    pub fn full_scalar_arrays(&self) -> (r: Vec<Vec<u8>>)
        requires
            self.wf(),
        ensures
            r@.len() == RECORD_NUM_CHUNKS,
            forall|i: int| 0 <= i < RECORD_NUM_CHUNKS ==> #[trigger] r@[i]@ == full_chunk(self@, i),
    {
        let mut r: Vec<Vec<u8>> = Vec::new();
        let mut i: usize = 0;
        while i < RECORD_NUM_CHUNKS
            invariant
                self.wf(),
                i <= RECORD_NUM_CHUNKS,
                r@.len() == i,
                forall|j: int| 0 <= j < i ==> #[trigger] r@[j]@ == full_chunk(self@, j),
            decreases RECORD_NUM_CHUNKS - i,
        {
            let chunk = copy_range(self.bytes.as_slice(), i * SCALAR_FULL_BYTES, SCALAR_FULL_BYTES);
            r.push(chunk);
            i = i + 1;
        }
        r
    }

    /// All safe scalar chunks of the record, in order: the same count as the
    /// full chunks, each being the leading [`SCALAR_SAFE_BYTES`]-byte prefix
    /// of the corresponding full chunk.
    ///
    /// Only meaningful for source records: only those carry raw data in the
    /// safe prefix of each chunk, the rest being coding bytes. The type does
    /// not track which kind of record it holds; callers must know.
    pub fn safe_scalar_arrays(&self) -> (r: Vec<Vec<u8>>)
        requires
            self.wf(),
        ensures
            r@.len() == RECORD_NUM_CHUNKS,
            forall|i: int| 0 <= i < RECORD_NUM_CHUNKS ==> #[trigger] r@[i]@ == safe_chunk(self@, i),
    {
        let mut r: Vec<Vec<u8>> = Vec::new();
        let mut i: usize = 0;
        while i < RECORD_NUM_CHUNKS
            invariant
                self.wf(),
                i <= RECORD_NUM_CHUNKS,
                r@.len() == i,
                forall|j: int| 0 <= j < i ==> #[trigger] r@[j]@ == safe_chunk(self@, j),
            decreases RECORD_NUM_CHUNKS - i,
        {
            let chunk = copy_range(self.bytes.as_slice(), i * SCALAR_FULL_BYTES, SCALAR_SAFE_BYTES);
            r.push(chunk);
            i = i + 1;
        }
        r
    }

    /// Overwrite every full scalar chunk of the record: the write-access
    /// counterpart of [`Record::full_scalar_arrays`], with identical
    /// chunking. Afterwards the `i`-th full chunk equals `chunks[i]`.
    pub fn full_scalar_arrays_mut(&mut self, chunks: &Vec<Vec<u8>>)
        requires
            old(self).wf(),
            chunks@.len() == RECORD_NUM_CHUNKS,
            forall|i: int| 0 <= i < RECORD_NUM_CHUNKS ==> #[trigger] chunks@[i]@.len()
                == SCALAR_FULL_BYTES,
        ensures
            final(self).wf(),
            forall|i: int| 0 <= i < RECORD_NUM_CHUNKS ==> #[trigger] full_chunk(final(self)@, i)
                == chunks@[i]@,
    {
        let mut fresh: Vec<u8> = Vec::new();
        let mut i: usize = 0;
        while i < RECORD_NUM_CHUNKS
            invariant
                i <= RECORD_NUM_CHUNKS,
                chunks@.len() == RECORD_NUM_CHUNKS,
                forall|j: int| 0 <= j < RECORD_NUM_CHUNKS ==> #[trigger] chunks@[j]@.len()
                    == SCALAR_FULL_BYTES,
                fresh@.len() == i * SCALAR_FULL_BYTES,
                forall|j: int| 0 <= j < i ==> #[trigger] full_chunk(fresh@, j) == chunks@[j]@,
            decreases RECORD_NUM_CHUNKS - i,
        {
            let ghost before = fresh@;
            push_all(&mut fresh, chunks[i].as_slice());
            assert forall|j: int| 0 <= j < i + 1 implies #[trigger] full_chunk(fresh@, j)
                == chunks@[j]@ by {
                if j < i {
                    assert(full_chunk(fresh@, j) =~= full_chunk(before, j));
                } else {
                    assert(full_chunk(fresh@, j) =~= chunks@[j]@);
                }
            }
            i = i + 1;
        }
        self.bytes = fresh;
    }

    /// Overwrite the safe prefix of every full scalar chunk of the record:
    /// the write-access counterpart of [`Record::safe_scalar_arrays`], with
    /// identical chunking. Afterwards the `i`-th safe chunk equals
    /// `chunks[i]` and the trailing byte of each full chunk is unchanged.
    pub fn safe_scalar_arrays_mut(&mut self, chunks: &Vec<Vec<u8>>)
        requires
            old(self).wf(),
            chunks@.len() == RECORD_NUM_CHUNKS,
            forall|i: int| 0 <= i < RECORD_NUM_CHUNKS ==> #[trigger] chunks@[i]@.len()
                == SCALAR_SAFE_BYTES,
        ensures
            final(self).wf(),
            forall|i: int| 0 <= i < RECORD_NUM_CHUNKS ==> #[trigger] safe_chunk(final(self)@, i)
                == chunks@[i]@,
            forall|i: int| 0 <= i < RECORD_NUM_CHUNKS ==> #[trigger] full_chunk(final(self)@, i)
                == chunks@[i]@ + seq![old(self)@[i * SCALAR_FULL_BYTES + SCALAR_SAFE_BYTES]],
    {
        let ghost orig = self@;
        let mut fresh: Vec<u8> = Vec::new();
        let mut i: usize = 0;
        while i < RECORD_NUM_CHUNKS
            invariant
                self.wf(),
                self@ == orig,
                i <= RECORD_NUM_CHUNKS,
                chunks@.len() == RECORD_NUM_CHUNKS,
                forall|j: int| 0 <= j < RECORD_NUM_CHUNKS ==> #[trigger] chunks@[j]@.len()
                    == SCALAR_SAFE_BYTES,
                fresh@.len() == i * SCALAR_FULL_BYTES,
                forall|j: int| 0 <= j < i ==> #[trigger] safe_chunk(fresh@, j) == chunks@[j]@,
                forall|j: int| 0 <= j < i ==> #[trigger] full_chunk(fresh@, j) == chunks@[j]@
                    + seq![orig[j * SCALAR_FULL_BYTES + SCALAR_SAFE_BYTES]],
            decreases RECORD_NUM_CHUNKS - i,
        {
            let ghost before = fresh@;
            push_all(&mut fresh, chunks[i].as_slice());
            let pad = self.bytes[i * SCALAR_FULL_BYTES + SCALAR_SAFE_BYTES];
            fresh.push(pad);
            assert forall|j: int| 0 <= j < i + 1 implies #[trigger] safe_chunk(fresh@, j)
                == chunks@[j]@ by {
                if j < i {
                    assert(safe_chunk(before, j) == chunks@[j]@);
                    assert(safe_chunk(fresh@, j) =~= safe_chunk(before, j));
                } else {
                    assert(safe_chunk(fresh@, j) =~= chunks@[j]@);
                }
            }
            assert forall|j: int| 0 <= j < i + 1 implies #[trigger] full_chunk(fresh@, j)
                == chunks@[j]@ + seq![orig[j * SCALAR_FULL_BYTES + SCALAR_SAFE_BYTES]] by {
                if j < i {
                    assert(full_chunk(before, j) == chunks@[j]@ + seq![
                        orig[j * SCALAR_FULL_BYTES + SCALAR_SAFE_BYTES],
                    ]);
                    assert(full_chunk(fresh@, j) =~= full_chunk(before, j));
                } else {
                    assert(full_chunk(fresh@, j) =~= chunks@[j]@ + seq![
                        orig[j * SCALAR_FULL_BYTES + SCALAR_SAFE_BYTES],
                    ]);
                }
            }
            i = i + 1;
        }
        self.bytes = fresh;
    }
}

impl Default for Record {
    /// A zero-filled record: the placeholder state before archived data is
    /// written in.
    fn default() -> (r: Record)
        ensures
            r.wf(),
            r@ == zero_bytes(RECORD_SIZE as nat),
    {
        Record { bytes: zero_vec(RECORD_SIZE) }
    }
}

/// Record commitment contained within a piece: a fixed 48-byte cryptographic
/// binding of the record's content.
#[derive(Debug, Clone)]
pub struct RecordCommitment {
    bytes: Vec<u8>,
}

impl View for RecordCommitment {
    type V = Seq<u8>;

    closed spec fn view(&self) -> Seq<u8> {
        self.bytes@
    }
}

impl RecordCommitment {
    /// A commitment holds exactly [`RECORD_COMMITMENT_SIZE`] bytes.
    pub open spec fn wf(&self) -> bool {
        self@.len() == RECORD_COMMITMENT_SIZE
    }

    /// Build a commitment from exactly [`RECORD_COMMITMENT_SIZE`] bytes.
    pub fn from_vec(bytes: Vec<u8>) -> (r: RecordCommitment)
        requires
            bytes@.len() == RECORD_COMMITMENT_SIZE,
        ensures
            r.wf(),
            r@ == bytes@,
    {
        RecordCommitment { bytes }
    }

    /// The commitment's bytes, without copying.
    pub fn as_bytes(&self) -> (r: &[u8])
        ensures
            r@ == self@,
    {
        self.bytes.as_slice()
    }

    /// Overwrite the commitment with exactly [`RECORD_COMMITMENT_SIZE`]
    /// bytes: the write-access counterpart of
    /// [`RecordCommitment::as_bytes`].
    pub fn copy_from(&mut self, bytes: &[u8])
        requires
            bytes@.len() == RECORD_COMMITMENT_SIZE,
        ensures
            final(self).wf(),
            final(self)@ == bytes@,
    {
        self.bytes = slice_to_vec(bytes);
    }
}

impl Default for RecordCommitment {
    /// A zero-filled commitment: the placeholder state before the real
    /// commitment is written in.
    fn default() -> (r: RecordCommitment)
        ensures
            r.wf(),
            r@ == zero_bytes(RECORD_COMMITMENT_SIZE as nat),
    {
        RecordCommitment { bytes: zero_vec(RECORD_COMMITMENT_SIZE) }
    }
}

/// Record witness contained within a piece: a fixed 48-byte proof that the
/// record corresponds to its segment-wide root.
#[derive(Debug, Clone)]
pub struct RecordWitness {
    bytes: Vec<u8>,
}

impl View for RecordWitness {
    type V = Seq<u8>;

    closed spec fn view(&self) -> Seq<u8> {
        self.bytes@
    }
}

impl RecordWitness {
    /// A witness holds exactly [`RECORD_WITNESS_SIZE`] bytes.
    pub open spec fn wf(&self) -> bool {
        self@.len() == RECORD_WITNESS_SIZE
    }

    /// Build a witness from exactly [`RECORD_WITNESS_SIZE`] bytes.
    pub fn from_vec(bytes: Vec<u8>) -> (r: RecordWitness)
        requires
            bytes@.len() == RECORD_WITNESS_SIZE,
        ensures
            r.wf(),
            r@ == bytes@,
    {
        RecordWitness { bytes }
    }

    /// The witness's bytes, without copying.
    pub fn as_bytes(&self) -> (r: &[u8])
        ensures
            r@ == self@,
    {
        self.bytes.as_slice()
    }

    /// Overwrite the witness with exactly [`RECORD_WITNESS_SIZE`] bytes:
    /// the write-access counterpart of [`RecordWitness::as_bytes`].
    pub fn copy_from(&mut self, bytes: &[u8])
        requires
            bytes@.len() == RECORD_WITNESS_SIZE,
        ensures
            final(self).wf(),
            final(self)@ == bytes@,
    {
        self.bytes = slice_to_vec(bytes);
    }
}

impl Default for RecordWitness {
    /// A zero-filled witness: the placeholder state before the real witness
    /// is written in.
    fn default() -> (r: RecordWitness)
        ensures
            r.wf(),
            r@ == zero_bytes(RECORD_WITNESS_SIZE as nat),
    {
        RecordWitness { bytes: zero_vec(RECORD_WITNESS_SIZE) }
    }
}

} // verus!
