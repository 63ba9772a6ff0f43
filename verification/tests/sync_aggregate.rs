use execution_layer::arith::ArithError;
use execution_layer::ssz::{
    SszTypesError, MAX_VALIDATORS_PER_COMMITTEE, SYNC_COMMITTEE_SIZE, SYNC_SUBCOMMITTEE_SIZE,
};
use execution_layer::sync_aggregate::{
    AggregateSeed, AggregateSignature, Error, SyncAggregate, SyncCommitteeContribution,
    SYNC_COMMITTEE_SUBNET_COUNT,
};
use execution_layer::primitives::{Hash256, SignatureBytes};
use ssz_types::typenum::U128;
use ssz_types::BitVector;

fn contribution(subcommittee_index: u64, voters: &[usize], signature: u8) -> SyncCommitteeContribution {
    let mut aggregation_bits = BitVector::<U128>::new();
    for voter in voters {
        aggregation_bits.set(*voter, true).unwrap();
    }
    SyncCommitteeContribution {
        slot: 1,
        beacon_block_root: Hash256([5; 32]),
        subcommittee_index,
        aggregation_bits,
        signature: SignatureBytes([signature; 96]),
    }
}

fn set_places(aggregate: &SyncAggregate) -> Vec<usize> {
    aggregate
        .sync_committee_bits
        .iter()
        .enumerate()
        .filter(|(_, set)| *set)
        .map(|(place, _)| place)
        .collect()
}

#[test]
fn committee_sizes() {
    assert_eq!(SYNC_COMMITTEE_SIZE, 512);
    assert_eq!(SYNC_COMMITTEE_SUBNET_COUNT, 4);
    assert_eq!(SYNC_SUBCOMMITTEE_SIZE, 128);
    assert_eq!(MAX_VALIDATORS_PER_COMMITTEE, 2048);
}

#[test]
fn new_aggregate_has_no_participants_and_starts_at_infinity() {
    let aggregate = SyncAggregate::new();
    assert_eq!(aggregate.sync_committee_bits.len(), 512);
    assert_eq!(aggregate.num_set_bits(), 0);
    assert_eq!(aggregate.sync_committee_signature, AggregateSignature::infinity());
    assert_eq!(aggregate.sync_committee_signature.seed, AggregateSeed::Infinity);
    assert!(aggregate.sync_committee_signature.added.is_empty());
}

#[test]
fn empty_aggregate_has_the_empty_signature() {
    let aggregate = SyncAggregate::empty();
    assert_eq!(aggregate.sync_committee_bits.len(), 512);
    assert_eq!(aggregate.num_set_bits(), 0);
    assert_eq!(aggregate.sync_committee_signature, AggregateSignature::empty());
    assert_eq!(aggregate.sync_committee_signature.seed, AggregateSeed::Empty);
    assert!(aggregate.sync_committee_signature.added.is_empty());
}

#[test]
fn add_assign_aggregate_appends() {
    let mut signature = AggregateSignature::infinity();
    signature.add_assign_aggregate(&SignatureBytes([1; 96]));
    signature.add_assign_aggregate(&SignatureBytes([2; 96]));
    assert_eq!(signature.seed, AggregateSeed::Infinity);
    assert_eq!(signature.added, vec![SignatureBytes([1; 96]), SignatureBytes([2; 96])]);
}

#[test]
fn no_contributions_give_new_aggregate() {
    let aggregate = SyncAggregate::from_contributions(&[]).unwrap();
    assert_eq!(aggregate.num_set_bits(), 0);
    assert_eq!(aggregate.sync_committee_signature, AggregateSignature::infinity());
}

#[test]
fn contributions_are_placed_by_subcommittee() {
    let contributions = vec![
        contribution(0, &[0, 5, 127], 1),
        contribution(1, &[0, 127], 2),
        contribution(3, &[1, 127], 3),
    ];
    let aggregate = SyncAggregate::from_contributions(&contributions).unwrap();
    assert_eq!(set_places(&aggregate), vec![0, 5, 127, 128, 255, 385, 511]);
    assert_eq!(aggregate.num_set_bits(), 7);
    assert_eq!(aggregate.sync_committee_signature.seed, AggregateSeed::Infinity);
    assert_eq!(
        aggregate.sync_committee_signature.added,
        vec![SignatureBytes([1; 96]), SignatureBytes([2; 96]), SignatureBytes([3; 96])]
    );
}

#[test]
fn overlapping_contributions_set_a_bit_once() {
    let contributions = vec![
        contribution(2, &[3, 4], 1),
        contribution(2, &[4, 5], 2),
        contribution(2, &[], 3),
    ];
    let aggregate = SyncAggregate::from_contributions(&contributions).unwrap();
    assert_eq!(set_places(&aggregate), vec![259, 260, 261]);
    assert_eq!(aggregate.num_set_bits(), 3);
    // Every contribution's signature is added, also where it brings no new participant.
    assert_eq!(aggregate.sync_committee_signature.added.len(), 3);
}

#[test]
fn full_participation() {
    let everyone: Vec<usize> = (0..128).collect();
    let contributions: Vec<SyncCommitteeContribution> =
        (0..4).map(|index| contribution(index, &everyone, index as u8)).collect();
    let aggregate = SyncAggregate::from_contributions(&contributions).unwrap();
    assert_eq!(aggregate.num_set_bits(), 512);
}

#[test]
fn subcommittee_beyond_the_committee_is_out_of_bounds() {
    let contributions = vec![contribution(0, &[1], 1), contribution(4, &[0, 1], 2)];
    match SyncAggregate::from_contributions(&contributions) {
        Err(error) => assert_eq!(
            error,
            Error::SszTypesError(SszTypesError::OutOfBounds { i: 512, len: 512 })
        ),
        Ok(_) => panic!("the fifth subcommittee has no place in the committee"),
    }
    // The first failing vote decides: here the member at place 7 of subcommittee 9.
    let contributions = vec![contribution(9, &[7, 8], 1), contribution(4, &[0], 2)];
    match SyncAggregate::from_contributions(&contributions) {
        Err(error) => assert_eq!(
            error,
            Error::SszTypesError(SszTypesError::OutOfBounds { i: 9 * 128 + 7, len: 512 })
        ),
        Ok(_) => panic!("the tenth subcommittee has no place in the committee"),
    }
}

#[test]
fn subcommittee_without_votes_cannot_fail() {
    // No bit is set, so the index of the subcommittee is never looked at.
    let contributions = vec![contribution(u64::MAX, &[], 1), contribution(4, &[], 2)];
    let aggregate = SyncAggregate::from_contributions(&contributions).unwrap();
    assert_eq!(aggregate.num_set_bits(), 0);
    assert_eq!(aggregate.sync_committee_signature.added.len(), 2);
}

#[test]
fn overflowing_index_is_an_arithmetic_error() {
    let contributions = vec![contribution(u64::MAX, &[0], 1)];
    match SyncAggregate::from_contributions(&contributions) {
        Err(error) => assert_eq!(error, Error::ArithError(ArithError::Overflow)),
        Ok(_) => panic!("128 times the largest index does not fit"),
    }
    // The product fits, the sum does not.
    let largest = (usize::MAX / 128) as u64;
    let contributions = vec![contribution(largest, &[127], 1)];
    match SyncAggregate::from_contributions(&contributions) {
        Err(error) => assert_eq!(
            error,
            Error::SszTypesError(SszTypesError::OutOfBounds { i: usize::MAX, len: 512 })
        ),
        Ok(_) => panic!("the index lies beyond the committee"),
    }
    assert_eq!(Error::from(ArithError::DivisionByZero), Error::ArithError(ArithError::DivisionByZero));
}
