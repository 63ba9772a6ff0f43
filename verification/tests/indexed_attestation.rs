use execution_layer::primitives::{Hash256, SignatureBytes};
use execution_layer::indexed_attestation::{
    get_attesting_indices, get_indexed_attestation, Attestation, AttestationData,
    BeaconStateError, BlockOperationError, Checkpoint,
};
use ssz_types::typenum::U2048;
use ssz_types::BitList;

fn attestation_data() -> AttestationData {
    AttestationData {
        slot: 12,
        index: 3,
        beacon_block_root: Hash256([1; 32]),
        source: Checkpoint { epoch: 4, root: Hash256([2; 32]) },
        target: Checkpoint { epoch: 5, root: Hash256([3; 32]) },
    }
}

fn attestation(bits: &[bool]) -> Attestation {
    let mut aggregation_bits = BitList::<U2048>::with_capacity(bits.len()).unwrap();
    for (place, bit) in bits.iter().enumerate() {
        aggregation_bits.set(place, *bit).unwrap();
    }
    Attestation { aggregation_bits, data: attestation_data(), signature: SignatureBytes([6; 96]) }
}

#[test]
fn attesters_are_named_in_ascending_order() {
    let committee = [40, 10, 30, 20, 50];
    let indexed =
        get_indexed_attestation(&committee, &attestation(&[true, true, false, true, false]))
            .unwrap();
    assert_eq!(indexed.attesting_indices.to_vec(), vec![10, 20, 40]);
    assert_eq!(indexed.data, attestation_data());
    assert_eq!(indexed.signature, SignatureBytes([6; 96]));
}

#[test]
fn a_validator_that_sits_twice_is_named_twice() {
    let committee = [7, 3, 7];
    let indexed = get_indexed_attestation(&committee, &attestation(&[true, true, true])).unwrap();
    assert_eq!(indexed.attesting_indices.to_vec(), vec![3, 7, 7]);
}

#[test]
fn nobody_attesting_gives_an_empty_list() {
    let committee = [4, 5, 6];
    let indexed = get_indexed_attestation(&committee, &attestation(&[false, false, false])).unwrap();
    assert!(indexed.attesting_indices.is_empty());
    let indexed = get_indexed_attestation(&[], &attestation(&[])).unwrap();
    assert!(indexed.attesting_indices.is_empty());
}

#[test]
fn bitfield_of_another_length_is_invalid() {
    let committee = [4, 5, 6];
    match get_indexed_attestation(&committee, &attestation(&[true, false])) {
        Err(error) => {
            assert_eq!(error, BlockOperationError::BeaconStateError(BeaconStateError::InvalidBitfield))
        }
        Ok(_) => panic!("two bits cannot speak for three members"),
    }
    match get_indexed_attestation(&committee, &attestation(&[true, false, true, false])) {
        Err(error) => {
            assert_eq!(error, BlockOperationError::BeaconStateError(BeaconStateError::InvalidBitfield))
        }
        Ok(_) => panic!("four bits cannot speak for three members"),
    }
    assert_eq!(
        get_attesting_indices(&committee, &attestation(&[true]).aggregation_bits),
        Err(BeaconStateError::InvalidBitfield)
    );
}

#[test]
fn attesting_indices_of_a_full_committee() {
    let committee: Vec<usize> = (0..2048).rev().collect();
    let bits = vec![true; 2048];
    let indices = get_attesting_indices(&committee, &attestation(&bits).aggregation_bits).unwrap();
    assert_eq!(indices, (0..2048).collect::<Vec<u64>>());
    let indexed = get_indexed_attestation(&committee, &attestation(&bits)).unwrap();
    assert_eq!(indexed.attesting_indices.len(), 2048);
}
