//! Tests of the record chunk views and the segment/raw-record sizing.

use subspace_core_primitives::record::Record;
use subspace_core_primitives::segment::RawRecord;
use subspace_core_primitives::segment::RecordedHistorySegment;
use subspace_core_primitives::PIECES_IN_SEGMENT;
use subspace_core_primitives::PIECE_SIZE;
use subspace_core_primitives::RAW_RECORDS_IN_SEGMENT;
use subspace_core_primitives::RAW_RECORD_SIZE;
use subspace_core_primitives::RECORDED_HISTORY_SEGMENT_SIZE;
use subspace_core_primitives::RECORD_COMMITMENT_SIZE;
use subspace_core_primitives::RECORD_NUM_CHUNKS;
use subspace_core_primitives::RECORD_SIZE;
use subspace_core_primitives::RECORD_WITNESS_SIZE;
use subspace_core_primitives::SCALAR_FULL_BYTES;
use subspace_core_primitives::SCALAR_SAFE_BYTES;

fn patterned_record() -> Record {
    let bytes: Vec<u8> = (0..RECORD_SIZE).map(|i| (i % 249) as u8).collect();
    let mut record = Record::default();
    record.copy_from(&bytes);
    record
}

#[test]
fn full_chunks_cover_the_record() {
    let record = patterned_record();
    let chunks = record.full_scalar_arrays();
    assert_eq!(chunks.len(), RECORD_NUM_CHUNKS);
    assert_eq!(chunks.len(), RECORD_SIZE / SCALAR_FULL_BYTES);
    let concat: Vec<u8> = chunks.iter().flatten().copied().collect();
    assert_eq!(concat.as_slice(), record.as_bytes());
}

#[test]
fn safe_chunks_are_prefixes_of_full_chunks() {
    let record = patterned_record();
    let full = record.full_scalar_arrays();
    let safe = record.safe_scalar_arrays();
    assert_eq!(safe.len(), full.len());
    for (safe_chunk, full_chunk) in safe.iter().zip(full.iter()) {
        assert_eq!(full_chunk.len(), SCALAR_FULL_BYTES);
        assert_eq!(safe_chunk.len(), SCALAR_SAFE_BYTES);
        assert_eq!(safe_chunk.as_slice(), &full_chunk[..SCALAR_SAFE_BYTES]);
    }
}

#[test]
fn full_chunk_writes_read_back() {
    let mut record = Record::default();
    let chunks: Vec<Vec<u8>> = (0..RECORD_NUM_CHUNKS)
        .map(|i| vec![(i % 255) as u8; SCALAR_FULL_BYTES])
        .collect();
    record.full_scalar_arrays_mut(&chunks);
    assert_eq!(record.full_scalar_arrays(), chunks);
}

#[test]
fn safe_chunk_writes_keep_the_padding_byte() {
    let mut record = patterned_record();
    let pads_before: Vec<u8> = record
        .full_scalar_arrays()
        .iter()
        .map(|chunk| chunk[SCALAR_FULL_BYTES - 1])
        .collect();
    let chunks: Vec<Vec<u8>> = (0..RECORD_NUM_CHUNKS)
        .map(|i| vec![(i % 97) as u8; SCALAR_SAFE_BYTES])
        .collect();
    record.safe_scalar_arrays_mut(&chunks);
    assert_eq!(record.safe_scalar_arrays(), chunks);
    let pads_after: Vec<u8> = record
        .full_scalar_arrays()
        .iter()
        .map(|chunk| chunk[SCALAR_FULL_BYTES - 1])
        .collect();
    assert_eq!(pads_after, pads_before);
}

#[test]
fn segment_sizing_constants() {
    assert_eq!(PIECE_SIZE, 31_744);
    assert_eq!(RECORD_COMMITMENT_SIZE, 48);
    assert_eq!(RECORD_WITNESS_SIZE, 48);
    assert_eq!(
        RECORD_SIZE,
        PIECE_SIZE - RECORD_COMMITMENT_SIZE - RECORD_WITNESS_SIZE
    );
    assert_eq!(RECORD_SIZE, 31_648);
    assert_eq!(RECORD_SIZE % SCALAR_FULL_BYTES, 0);
    assert_eq!(RAW_RECORD_SIZE, RECORD_SIZE / SCALAR_FULL_BYTES * SCALAR_SAFE_BYTES);
    assert!(RAW_RECORD_SIZE > 0);
    assert_eq!(RAW_RECORD_SIZE % SCALAR_SAFE_BYTES, 0);
    assert_eq!(RAW_RECORDS_IN_SEGMENT, PIECES_IN_SEGMENT / 2);
    assert_eq!(RECORDED_HISTORY_SEGMENT_SIZE, RAW_RECORD_SIZE * 128);
}

#[test]
fn default_segment_is_zero_filled_and_sized() {
    let segment = RecordedHistorySegment::default();
    let bytes = segment.to_bytes();
    assert_eq!(bytes.len(), RECORDED_HISTORY_SEGMENT_SIZE);
    assert!(bytes.iter().all(|&b| b == 0));
}

#[test]
fn segment_records_concatenate_in_order() {
    let mut segment = RecordedHistorySegment::default();
    segment.record_at_mut(0).copy_from(&vec![1u8; RAW_RECORD_SIZE]);
    segment
        .record_at_mut(RAW_RECORDS_IN_SEGMENT - 1)
        .copy_from(&vec![2u8; RAW_RECORD_SIZE]);
    assert!(segment.record_at(0).as_bytes().iter().all(|&b| b == 1));
    assert!(segment.record_at(1).as_bytes().iter().all(|&b| b == 0));
    let bytes = segment.to_bytes();
    assert!(bytes[..RAW_RECORD_SIZE].iter().all(|&b| b == 1));
    assert!(bytes[RAW_RECORD_SIZE..2 * RAW_RECORD_SIZE].iter().all(|&b| b == 0));
    assert!(bytes[(RAW_RECORDS_IN_SEGMENT - 1) * RAW_RECORD_SIZE..]
        .iter()
        .all(|&b| b == 2));
}

#[test]
fn raw_record_default_and_write() {
    let mut raw = RawRecord::default();
    assert_eq!(raw.as_bytes().len(), RAW_RECORD_SIZE);
    assert!(raw.as_bytes().iter().all(|&b| b == 0));
    let data: Vec<u8> = (0..RAW_RECORD_SIZE).map(|i| (i % 7) as u8).collect();
    raw.copy_from(&data);
    assert_eq!(raw.as_bytes(), data.as_slice());
}
