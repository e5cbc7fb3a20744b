//! Raw records and the recorded history segment they form.
//!
//! A [`RawRecord`] holds pre-archival chain data: the same number of scalar
//! chunks as an archived record, but each chunk only [`SCALAR_SAFE_BYTES`]
//! bytes wide. A [`RecordedHistorySegment`] is the fixed batch of
//! [`RAW_RECORDS_IN_SEGMENT`] raw records that is erasure-coded (outside
//! this crate) into one segment's worth of pieces.

use vstd::prelude::*;
use vstd::slice::slice_to_vec;

use crate::bytes::push_all;
use crate::bytes::zero_bytes;
use crate::bytes::zero_vec;
use crate::RAW_RECORDS_IN_SEGMENT;
use crate::RAW_RECORD_SIZE;
use crate::RECORDED_HISTORY_SEGMENT_SIZE;

verus! {

/// Raw record contained within a recorded history segment, before archiving
/// is applied: exactly [`RAW_RECORD_SIZE`] bytes. The bytes live on the
/// heap.
#[derive(Debug, Clone)]
pub struct RawRecord {
    bytes: Vec<u8>,
}

impl View for RawRecord {
    type V = Seq<u8>;

    closed spec fn view(&self) -> Seq<u8> {
        self.bytes@
    }
}

impl RawRecord {
    /// A raw record holds exactly [`RAW_RECORD_SIZE`] bytes.
    pub open spec fn wf(&self) -> bool {
        self@.len() == RAW_RECORD_SIZE
    }

    /// Build a raw record from exactly [`RAW_RECORD_SIZE`] bytes.
    pub fn from_vec(bytes: Vec<u8>) -> (r: RawRecord)
        requires
            bytes@.len() == RAW_RECORD_SIZE,
        ensures
            r.wf(),
            r@ == bytes@,
    {
        RawRecord { bytes }
    }

    /// The raw record's bytes, without copying.
    pub fn as_bytes(&self) -> (r: &[u8])
        ensures
            r@ == self@,
    {
        self.bytes.as_slice()
    }

    /// Overwrite the raw record with exactly [`RAW_RECORD_SIZE`] bytes: the
    /// write-access counterpart of [`RawRecord::as_bytes`].
    pub fn copy_from(&mut self, bytes: &[u8])
        requires
            bytes@.len() == RAW_RECORD_SIZE,
        ensures
            final(self).wf(),
            final(self)@ == bytes@,
    {
        self.bytes = slice_to_vec(bytes);
    }
}

impl Default for RawRecord {
    /// A zero-filled raw record: the placeholder state before chain data is
    /// written in.
    fn default() -> (r: RawRecord)
        ensures
            r.wf(),
            r@ == zero_bytes(RAW_RECORD_SIZE as nat),
    {
        RawRecord { bytes: zero_vec(RAW_RECORD_SIZE) }
    }
}

/// Recorded history segment before archiving is applied: exactly
/// [`RAW_RECORDS_IN_SEGMENT`] raw records, contiguous and in order.
#[derive(Debug, Clone)]
pub struct RecordedHistorySegment {
    records: Vec<RawRecord>,
}

impl View for RecordedHistorySegment {
    type V = Seq<RawRecord>;

    closed spec fn view(&self) -> Seq<RawRecord> {
        self.records@
    }
}

impl RecordedHistorySegment {
    /// A segment holds exactly [`RAW_RECORDS_IN_SEGMENT`] raw records, each
    /// well-formed.
    pub open spec fn wf(&self) -> bool {
        &&& self@.len() == RAW_RECORDS_IN_SEGMENT
        &&& forall|i: int| 0 <= i < self@.len() ==> (#[trigger] self@[i]).wf()
    }

    /// Borrow the raw record at `index`.
    pub fn record_at(&self, index: usize) -> (r: &RawRecord)
        requires
            index < self@.len(),
        ensures
            *r == self@[index as int],
    {
        &self.records[index]
    }

    /// Mutably borrow the raw record at `index`.
    pub fn record_at_mut(&mut self, index: usize) -> (r: &mut RawRecord)
        requires
            index < old(self)@.len(),
        ensures
            *r == old(self)@[index as int],
            final(self)@ == old(self)@.update(index as int, *final(r)),
    {
        &mut self.records[index]
    }

    /// The whole segment as one contiguous byte buffer of
    /// [`RECORDED_HISTORY_SEGMENT_SIZE`] bytes: the raw records
    /// concatenated in order.
    pub fn to_bytes(&self) -> (r: Vec<u8>)
        requires
            self.wf(),
        ensures
            r@.len() == RECORDED_HISTORY_SEGMENT_SIZE,
            forall|i: int|
                0 <= i < RAW_RECORDS_IN_SEGMENT ==> #[trigger] r@.subrange(
                    i * RAW_RECORD_SIZE,
                    i * RAW_RECORD_SIZE + RAW_RECORD_SIZE,
                ) == self@[i]@,
    {
        let mut r: Vec<u8> = Vec::new();
        let mut i: usize = 0;
        while i < RAW_RECORDS_IN_SEGMENT
            invariant
                self.wf(),
                i <= RAW_RECORDS_IN_SEGMENT,
                r@.len() == i * RAW_RECORD_SIZE,
                forall|j: int|
                    0 <= j < i ==> #[trigger] r@.subrange(
                        j * RAW_RECORD_SIZE,
                        j * RAW_RECORD_SIZE + RAW_RECORD_SIZE,
                    ) == self@[j]@,
            decreases RAW_RECORDS_IN_SEGMENT - i,
        {
            let ghost before = r@;
            push_all(&mut r, self.records[i].as_bytes());
            assert forall|j: int|
                0 <= j < i + 1 implies #[trigger] r@.subrange(
                j * RAW_RECORD_SIZE,
                j * RAW_RECORD_SIZE + RAW_RECORD_SIZE,
            ) == self@[j]@ by {
                if j < i {
                    assert(before.subrange(j * RAW_RECORD_SIZE, j * RAW_RECORD_SIZE
                        + RAW_RECORD_SIZE) == self@[j]@);
                    assert(r@.subrange(j * RAW_RECORD_SIZE, j * RAW_RECORD_SIZE + RAW_RECORD_SIZE)
                        =~= before.subrange(j * RAW_RECORD_SIZE, j * RAW_RECORD_SIZE
                        + RAW_RECORD_SIZE));
                } else {
                    assert(r@.subrange(j * RAW_RECORD_SIZE, j * RAW_RECORD_SIZE + RAW_RECORD_SIZE)
                        =~= self@[j]@);
                }
            }
            i = i + 1;
        }
        r
    }
}

impl Default for RecordedHistorySegment {
    /// A segment of [`RAW_RECORDS_IN_SEGMENT`] zero-filled raw records: the
    /// placeholder state before chain data is written in.
    fn default() -> (r: RecordedHistorySegment)
        ensures
            r.wf(),
            forall|i: int| 0 <= i < RAW_RECORDS_IN_SEGMENT ==> #[trigger] r@[i]@ == zero_bytes(
                RAW_RECORD_SIZE as nat,
            ),
    {
        let mut records: Vec<RawRecord> = Vec::new();
        let mut i: usize = 0;
        while i < RAW_RECORDS_IN_SEGMENT
            invariant
                i <= RAW_RECORDS_IN_SEGMENT,
                records@.len() == i,
                forall|j: int| 0 <= j < i ==> (#[trigger] records@[j]).wf(),
                forall|j: int| 0 <= j < i ==> #[trigger] records@[j]@ == zero_bytes(
                    RAW_RECORD_SIZE as nat,
                ),
            decreases RAW_RECORDS_IN_SEGMENT - i,
        {
            records.push(RawRecord::default());
            i = i + 1;
        }
        RecordedHistorySegment { records }
    }
}

} // verus!
