//! Tests of the batch container: zero-fill allocation, source/parity
//! position split, and the flat byte view.

use subspace_core_primitives::flat_pieces::FlatPieces;
use subspace_core_primitives::piece::PieceArray;
use subspace_core_primitives::PIECES_IN_SEGMENT;
use subspace_core_primitives::PIECE_SIZE;
use subspace_core_primitives::RECORD_SIZE;

#[test]
fn new_allocates_zero_filled_pieces() {
    let flat = FlatPieces::new(3);
    assert_eq!(flat.len(), 3);
    for index in 0..3 {
        let bytes = flat.piece_at(index).to_bytes();
        assert_eq!(bytes.len(), PIECE_SIZE);
        assert!(bytes.iter().all(|&b| b == 0));
    }
}

#[test]
fn empty_batch_has_no_source_and_no_parity() {
    let flat = FlatPieces::new(0);
    assert_eq!(flat.len(), 0);
    assert_eq!(flat.source().len(), 0);
    assert_eq!(flat.parity().len(), 0);
    assert_eq!(flat.to_bytes().len(), 0);
}

#[test]
fn single_piece_batch_is_all_source() {
    let flat = FlatPieces::new(1);
    assert_eq!(flat.source().len(), 1);
    assert_eq!(flat.parity().len(), 0);
}

#[test]
fn segment_batch_splits_evenly() {
    let flat = FlatPieces::new(PIECES_IN_SEGMENT);
    assert_eq!(flat.source().len(), 128);
    assert_eq!(flat.parity().len(), 128);
}

#[test]
fn odd_batch_has_one_more_source_than_parity() {
    let flat = FlatPieces::new(5);
    assert_eq!(flat.source().len(), 3);
    assert_eq!(flat.parity().len(), 2);
}

#[test]
fn source_and_parity_interleave_by_position() {
    let mut flat = FlatPieces::new(6);
    for index in 0..6 {
        let marker = vec![index as u8 + 1; RECORD_SIZE];
        flat.piece_at_mut(index).record_mut().copy_from(&marker);
    }
    let source_markers: Vec<u8> = flat
        .source()
        .iter()
        .map(|piece| piece.record().as_bytes()[0])
        .collect();
    assert_eq!(source_markers, vec![1, 3, 5]);
    let parity_markers: Vec<u8> = flat
        .parity()
        .iter()
        .map(|piece| piece.record().as_bytes()[0])
        .collect();
    assert_eq!(parity_markers, vec![2, 4, 6]);
}

#[test]
fn mutable_source_and_parity_pick_the_same_positions() {
    let mut flat = FlatPieces::new(4);
    flat.source_mut(1).record_mut().copy_from(&vec![0x11; RECORD_SIZE]);
    flat.parity_mut(0).record_mut().copy_from(&vec![0x22; RECORD_SIZE]);
    assert_eq!(flat.piece_at(2).record().as_bytes()[0], 0x11);
    assert_eq!(flat.piece_at(1).record().as_bytes()[0], 0x22);
    assert_eq!(flat.piece_at(0).record().as_bytes()[0], 0);
    assert_eq!(flat.piece_at(3).record().as_bytes()[0], 0);
}

#[test]
fn flat_bytes_concatenate_pieces_in_order() {
    let mut flat = FlatPieces::new(2);
    flat.piece_at_mut(0).record_mut().copy_from(&vec![4u8; RECORD_SIZE]);
    flat.piece_at_mut(1).record_mut().copy_from(&vec![8u8; RECORD_SIZE]);
    let bytes = flat.to_bytes();
    assert_eq!(bytes.len(), 2 * PIECE_SIZE);
    assert_eq!(&bytes[..PIECE_SIZE], flat.piece_at(0).to_bytes().as_slice());
    assert_eq!(&bytes[PIECE_SIZE..], flat.piece_at(1).to_bytes().as_slice());
}

#[test]
fn batch_from_one_piece_and_into_inner() {
    let mut array = PieceArray::default();
    array.record_mut().copy_from(&vec![6u8; RECORD_SIZE]);
    let expected = array.to_bytes();
    let flat = FlatPieces::from_piece(array);
    assert_eq!(flat.len(), 1);
    assert_eq!(flat.source().len(), 1);
    assert_eq!(flat.parity().len(), 0);
    let inner = flat.into_inner();
    assert_eq!(inner.len(), 1);
    assert_eq!(inner[0].to_bytes(), expected);
}
