//! Attestations, and their form in which the attesters are named by their validator indices.

use crate::primitives::{Hash256, SignatureBytes};
use crate::ssz::{
    attestation_bits, attestation_bits_of, index_list_items, new_index_list, within_committee,
    SszTypesError,
};
use ssz_types::typenum::U2048;
use ssz_types::{BitList, VariableList};
use vstd::prelude::*;

verus! {

/// A point of the chain at the start of an epoch.
#[derive(Copy, Clone, Debug, PartialEq, Eq)]
pub struct Checkpoint {
    pub epoch: u64,
    pub root: Hash256,
}

/// What an attester vouches for.
#[derive(Copy, Clone, Debug, PartialEq, Eq)]
pub struct AttestationData {
    pub slot: u64,
    pub index: u64,
    pub beacon_block_root: Hash256,
    pub source: Checkpoint,
    pub target: Checkpoint,
}

/// The votes of the members of one committee, who are named by their places in it.
#[derive(Debug)]
pub struct Attestation {
    pub aggregation_bits: BitList<U2048>,
    pub data: AttestationData,
    pub signature: SignatureBytes,
}

/// The votes of the members of one committee, who are named by their validator indices, in
/// ascending order.
#[derive(Debug)]
pub struct IndexedAttestation {
    pub attesting_indices: VariableList<u64, U2048>,
    pub data: AttestationData,
    pub signature: SignatureBytes,
}

/// Why the state of the chain could not answer.
#[derive(Copy, Clone, Debug, PartialEq, Eq, Structural)]
pub enum BeaconStateError {
    /// A bitfield has not one bit for each member of the committee it is about.
    InvalidBitfield,
}

/// Why an operation of a block could not be processed.
#[derive(Copy, Clone, Debug, PartialEq, Eq, Structural)]
pub enum BlockOperationError {
    BeaconStateError(BeaconStateError),
    SszTypesError(SszTypesError),
}

/// The validator indices of the first `count` members of `committee` whose bit is set, in the
/// order of the committee.
pub open spec fn attesters_among(committee: Seq<usize>, bits: Seq<bool>, count: nat) -> Seq<u64>
    decreases count,
{
    if count == 0 {
        Seq::empty()
    } else {
        let earlier = attesters_among(committee, bits, (count - 1) as nat);
        if bits[count - 1] {
            earlier.push(committee[count - 1] as u64)
        } else {
            earlier
        }
    }
}

/// The validator indices of the members of `committee` whose bit is set, in the order of the
/// committee.
pub open spec fn attesters(committee: Seq<usize>, bits: Seq<bool>) -> Seq<u64> {
    attesters_among(committee, bits, committee.len())
}

/// Whether the numbers stand in ascending order.
pub open spec fn ascending(numbers: Seq<u64>) -> bool {
    forall|i: int, j: int| 0 <= i < j < numbers.len() ==> numbers[i] <= numbers[j]
}

/// There are no more attesters among the first members of a committee than there are such
/// members.
pub proof fn lemma_attesters_are_members(committee: Seq<usize>, bits: Seq<bool>, count: nat)
    ensures
        attesters_among(committee, bits, count).len() <= count,
    decreases count,
{
    if count > 0 {
        lemma_attesters_are_members(committee, bits, (count - 1) as nat);
    }
}

/// `slice::sort_unstable`: the same numbers, in ascending order.
#[verifier::external_body]
fn sort_indices(indices: &mut Vec<u64>)
    ensures
        ascending(final(indices)@),
        final(indices)@.to_multiset() == old(indices)@.to_multiset(),
{
    indices.sort_unstable();
}

/// Returns the validator indices of the members of `committee` whose bit is set in `bitlist`,
/// in ascending order. It fails unless the bitfield has one bit for each member.
pub fn get_attesting_indices(committee: &[usize], bitlist: &BitList<U2048>) -> (made: Result<
    Vec<u64>,
    BeaconStateError,
>)
    ensures
        match made {
            Ok(indices) => {
                &&& attestation_bits(*bitlist).len() == committee@.len()
                &&& within_committee(committee@.len())
                &&& ascending(indices@)
                &&& indices@.to_multiset() == attesters(
                    committee@,
                    attestation_bits(*bitlist),
                ).to_multiset()
            },
            Err(error) => {
                &&& attestation_bits(*bitlist).len() != committee@.len()
                &&& error == BeaconStateError::InvalidBitfield
            },
        },
{
    let bits = attestation_bits_of(bitlist);
    if bits.len() != committee.len() {
        return Err(BeaconStateError::InvalidBitfield);
    }
    let mut indices: Vec<u64> = Vec::new();
    let mut i: usize = 0;
    while i < committee.len()
        invariant
            i <= committee.len(),
            bits@.len() == committee@.len(),
            indices@ == attesters_among(committee@, bits@, i as nat),
        decreases committee.len() - i,
    {
        if bits[i] {
            indices.push(committee[i] as u64);
        }
        i += 1;
    }
    sort_indices(&mut indices);
    Ok(indices)
}

/// Convert `attestation` to (almost) indexed-verifiable form.
///
/// The attesters are named by the validator indices that `committee` gives for their places, in
/// ascending order; what they vouch for and their signature are taken over. It fails unless
/// the attestation has one bit for each member of the committee.
pub fn get_indexed_attestation(committee: &[usize], attestation: &Attestation) -> (made: Result<
    IndexedAttestation,
    BlockOperationError,
>)
    ensures
        match made {
            Ok(indexed) => {
                &&& attestation_bits(attestation.aggregation_bits).len() == committee@.len()
                &&& within_committee(committee@.len())
                &&& ascending(index_list_items(indexed.attesting_indices))
                &&& index_list_items(indexed.attesting_indices).to_multiset() == attesters(
                    committee@,
                    attestation_bits(attestation.aggregation_bits),
                ).to_multiset()
                &&& indexed.data == attestation.data
                &&& indexed.signature == attestation.signature
            },
            Err(error) => {
                &&& attestation_bits(attestation.aggregation_bits).len() != committee@.len()
                &&& error == BlockOperationError::BeaconStateError(BeaconStateError::InvalidBitfield)
            },
        },
{
    let attesting_indices = match get_attesting_indices(committee, &attestation.aggregation_bits) {
        Ok(indices) => indices,
        Err(e) => {
            return Err(BlockOperationError::BeaconStateError(e));
        },
    };
    proof {
        let chosen = attesters(committee@, attestation_bits(attestation.aggregation_bits));
        lemma_attesters_are_members(
            committee@,
            attestation_bits(attestation.aggregation_bits),
            committee@.len(),
        );
        attesting_indices@.to_multiset_ensures();
        chosen.to_multiset_ensures();
        assert(attesting_indices@.len() == chosen.len());
    }
    let list = match new_index_list(attesting_indices) {
        Ok(list) => list,
        Err(e) => {
            return Err(BlockOperationError::SszTypesError(e));
        },
    };
    Ok(
        IndexedAttestation {
            attesting_indices: list,
            data: attestation.data.clone(),
            signature: attestation.signature.clone(),
        },
    )
}

} // verus!
