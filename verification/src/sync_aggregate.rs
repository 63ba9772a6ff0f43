//! The aggregate of a sync committee's votes on a block: which members took part, and the
//! signatures that stand for them.

use crate::arith::{safe_add, safe_div, safe_mul, ArithError};
use crate::primitives::{Hash256, SignatureBytes};
use crate::ssz::{
    committee_bits, count_committee_bits, count_set, no_bits, no_committee_bits, set_committee_bit,
    subcommittee_bits, subcommittee_bits_of, SszTypesError, SYNC_COMMITTEE_SIZE,
    SYNC_SUBCOMMITTEE_SIZE,
};
use ssz_types::typenum::{U128, U512};
use ssz_types::BitVector;
use vstd::prelude::*;

verus! {

/// The number of subnets on which the members of a sync committee publish their votes; the
/// committee falls into as many subcommittees.
pub const SYNC_COMMITTEE_SUBNET_COUNT: u64 = 4;

/// Why a sync aggregate could not be made.
#[derive(Copy, Clone, Debug, PartialEq, Eq, Structural)]
pub enum Error {
    /// A vote is for a place beyond the committee.
    SszTypesError(SszTypesError),
    /// The place that a vote is for cannot be computed.
    ArithError(ArithError),
}

impl From<ArithError> for Error {
    fn from(e: ArithError) -> (error: Error) {
        Error::ArithError(e)
    }
}

impl vstd::std_specs::convert::FromSpecImpl<ArithError> for Error {
    open spec fn obeys_from_spec() -> bool {
        true
    }

    open spec fn from_spec(e: ArithError) -> Error {
        Error::ArithError(e)
    }
}

/// What an aggregate signature starts from.
#[derive(Copy, Clone, Debug, PartialEq, Eq, Structural)]
pub enum AggregateSeed {
    /// The point at infinity, to which signatures can be added.
    Infinity,
    /// No point at all: the signature of an aggregate in which nobody took part.
    Empty,
}

/// An aggregate signature, kept as what it is made of: where it starts from and the
/// signatures that were added to it, in order. Adding the points up is left to the library
/// that checks signatures.
#[derive(Clone, Debug, PartialEq, Eq)]
pub struct AggregateSignature {
    pub seed: AggregateSeed,
    pub added: Vec<SignatureBytes>,
}

impl AggregateSignature {
    /// The aggregate of no signatures, ready to have signatures added.
    pub fn infinity() -> (signature: AggregateSignature)
        ensures
            signature.seed == AggregateSeed::Infinity,
            signature.added@ == Seq::<SignatureBytes>::empty(),
    {
        AggregateSignature { seed: AggregateSeed::Infinity, added: Vec::new() }
    }

    /// The empty signature.
    pub fn empty() -> (signature: AggregateSignature)
        ensures
            signature.seed == AggregateSeed::Empty,
            signature.added@ == Seq::<SignatureBytes>::empty(),
    {
        AggregateSignature { seed: AggregateSeed::Empty, added: Vec::new() }
    }

    /// Adds `other` to the aggregate.
    pub fn add_assign_aggregate(&mut self, other: &SignatureBytes)
        ensures
            final(self).seed == old(self).seed,
            final(self).added@ == old(self).added@.push(*other),
    {
        self.added.push(*other);
    }
}

/// The votes of the members of one subcommittee on one block, with the aggregate of their
/// signatures.
#[derive(Debug)]
pub struct SyncCommitteeContribution {
    pub slot: u64,
    pub beacon_block_root: Hash256,
    pub subcommittee_index: u64,
    pub aggregation_bits: BitVector<U128>,
    pub signature: SignatureBytes,
}

impl SyncCommitteeContribution {
    /// Which members of the subcommittee took part, by their places.
    pub open spec fn bits(&self) -> Seq<bool> {
        subcommittee_bits(self.aggregation_bits)
    }
}

/// The place in the committee of the member at place `index` of the subcommittee
/// `subcommittee_index`, whether or not the committee has such a place.
pub open spec fn participant_place(subcommittee_index: u64, index: int) -> int {
    SYNC_SUBCOMMITTEE_SIZE * (subcommittee_index as usize) + index
}

/// The place in the committee of the member at place `index` of the subcommittee
/// `subcommittee_index`, or why there is none: the place cannot be computed, or it lies beyond
/// the committee.
pub open spec fn participant_index(subcommittee_index: u64, index: int) -> Result<usize, Error> {
    let place = participant_place(subcommittee_index, index);
    if place > usize::MAX {
        Err(Error::ArithError(ArithError::Overflow))
    } else if place >= SYNC_COMMITTEE_SIZE {
        Err(
            Error::SszTypesError(
                SszTypesError::OutOfBounds { i: place as usize, len: SYNC_COMMITTEE_SIZE },
            ),
        )
    } else {
        Ok(place as usize)
    }
}

/// Whether the contribution at `k` says that the member at place `i` of its subcommittee took
/// part.
pub open spec fn votes(contributions: Seq<SyncCommitteeContribution>, k: int, i: int) -> bool {
    0 <= k < contributions.len() && 0 <= i < SYNC_SUBCOMMITTEE_SIZE && contributions[k].bits()[i]
}

/// Whether the vote at `(k, i)` cannot be recorded.
pub open spec fn fails(contributions: Seq<SyncCommitteeContribution>, k: int, i: int) -> bool {
    votes(contributions, k, i) && participant_index(contributions[k].subcommittee_index, i) is Err
}

/// Whether the vote at `(k, i)` is taken up before the one at `(k_end, i_end)`: contributions
/// are gone through in order, and the members of each from the lowest place up.
pub open spec fn precedes(k: int, i: int, k_end: int, i_end: int) -> bool {
    k < k_end || (k == k_end && i < i_end)
}

/// Whether a vote that is taken up before `(k_end, i_end)` is for the member at `place` of the
/// committee.
pub open spec fn recorded(
    contributions: Seq<SyncCommitteeContribution>,
    k_end: int,
    i_end: int,
    place: int,
) -> bool {
    exists|k: int, i: int|
        precedes(k, i, k_end, i_end) && #[trigger] votes(contributions, k, i) && participant_place(
            contributions[k].subcommittee_index,
            i,
        ) == place
}

/// Taking the vote at `(k, i)` up adds the member it is for, and nobody else.
proof fn lemma_recorded_step(contributions: Seq<SyncCommitteeContribution>, k: int, i: int, place: int)
    ensures
        recorded(contributions, k, i + 1, place) == (recorded(contributions, k, i, place) || (votes(
            contributions,
            k,
            i,
        ) && participant_place(contributions[k].subcommittee_index, i) == place)),
{
    if recorded(contributions, k, i + 1, place) {
        let (k0, i0) = choose|k0: int, i0: int|
            precedes(k0, i0, k, i + 1) && #[trigger] votes(contributions, k0, i0)
                && participant_place(contributions[k0].subcommittee_index, i0) == place;
        if precedes(k0, i0, k, i) {
            assert(recorded(contributions, k, i, place));
        } else {
            assert(k0 == k && i0 == i);
        }
    }
    if recorded(contributions, k, i, place) {
        let (k0, i0) = choose|k0: int, i0: int|
            precedes(k0, i0, k, i) && #[trigger] votes(contributions, k0, i0) && participant_place(
                contributions[k0].subcommittee_index,
                i0,
            ) == place;
        assert(precedes(k0, i0, k, i + 1));
    }
    if votes(contributions, k, i) && participant_place(contributions[k].subcommittee_index, i)
        == place {
        assert(precedes(k, i, k, i + 1));
    }
}

/// What was recorded when a contribution has been gone through is what is recorded when the
/// next one is begun.
proof fn lemma_recorded_next(contributions: Seq<SyncCommitteeContribution>, k: int, place: int)
    ensures
        recorded(contributions, k, SYNC_SUBCOMMITTEE_SIZE as int, place) == recorded(
            contributions,
            k + 1,
            0,
            place,
        ),
{
    if recorded(contributions, k, SYNC_SUBCOMMITTEE_SIZE as int, place) {
        let (k0, i0) = choose|k0: int, i0: int|
            precedes(k0, i0, k, SYNC_SUBCOMMITTEE_SIZE as int) && #[trigger] votes(
                contributions,
                k0,
                i0,
            ) && participant_place(contributions[k0].subcommittee_index, i0) == place;
        assert(precedes(k0, i0, k + 1, 0));
    }
    if recorded(contributions, k + 1, 0, place) {
        let (k0, i0) = choose|k0: int, i0: int|
            precedes(k0, i0, k + 1, 0) && #[trigger] votes(contributions, k0, i0)
                && participant_place(contributions[k0].subcommittee_index, i0) == place;
        assert(precedes(k0, i0, k, SYNC_SUBCOMMITTEE_SIZE as int));
    }
}

/// The votes of a whole sync committee on one block: who took part, and the aggregate of their
/// signatures.
#[derive(Debug)]
pub struct SyncAggregate {
    pub sync_committee_bits: BitVector<U512>,
    pub sync_committee_signature: AggregateSignature,
}

impl SyncAggregate {
    /// Which members of the committee took part, by their places.
    pub open spec fn bits(&self) -> Seq<bool> {
        committee_bits(self.sync_committee_bits)
    }

    /// New aggregate to be used as the seed for aggregating other signatures.
    pub fn new() -> (aggregate: SyncAggregate)
        ensures
            aggregate.bits() == no_bits(),
            aggregate.sync_committee_signature.seed == AggregateSeed::Infinity,
            aggregate.sync_committee_signature.added@ == Seq::<SignatureBytes>::empty(),
    {
        SyncAggregate {
            sync_committee_bits: no_committee_bits(),
            sync_committee_signature: AggregateSignature::infinity(),
        }
    }

    /// Create a `SyncAggregate` from a slice of `SyncCommitteeContribution`s.
    ///
    /// The aggregate marks every member for whom some contribution holds a vote, and its
    /// signature is made of the contributions' signatures in their order. It fails at the
    /// first vote, in the order of the contributions and of the places within each, whose
    /// place in the committee cannot be computed or lies beyond the committee.
    pub fn from_contributions(contributions: &[SyncCommitteeContribution]) -> (made: Result<
        SyncAggregate,
        Error,
    >)
        ensures
            match made {
                Ok(aggregate) => {
                    &&& forall|k: int, i: int| !#[trigger] fails(contributions@, k, i)
                    &&& aggregate.bits() == Seq::new(
                        SYNC_COMMITTEE_SIZE as nat,
                        |place: int| recorded(contributions@, contributions@.len() as int, 0, place),
                    )
                    &&& aggregate.sync_committee_signature.seed == AggregateSeed::Infinity
                    &&& aggregate.sync_committee_signature.added@ == Seq::new(
                        contributions@.len(),
                        |k: int| contributions@[k].signature,
                    )
                },
                Err(error) => exists|k: int, i: int|
                    {
                        &&& #[trigger] fails(contributions@, k, i)
                        &&& participant_index(contributions@[k].subcommittee_index, i) == Err::<
                            usize,
                            Error,
                        >(error)
                        &&& forall|k0: int, i0: int|
                            precedes(k0, i0, k, i) ==> !#[trigger] fails(contributions@, k0, i0)
                    },
            },
    {
        let mut sync_aggregate = Self::new();
        let sync_subcommittee_size = match safe_div(
            SYNC_COMMITTEE_SIZE,
            SYNC_COMMITTEE_SUBNET_COUNT as usize,
        ) {
            Ok(size) => size,
            Err(e) => {
                return Err(Error::from(e));
            },
        };
        let mut k: usize = 0;
        while k < contributions.len()
            invariant
                k <= contributions.len(),
                sync_subcommittee_size == SYNC_SUBCOMMITTEE_SIZE,
                sync_aggregate.bits().len() == SYNC_COMMITTEE_SIZE,
                forall|place: int|
                    0 <= place < SYNC_COMMITTEE_SIZE ==> sync_aggregate.bits()[place]
                        == #[trigger] recorded(contributions@, k as int, 0, place),
                forall|k0: int, i0: int|
                    precedes(k0, i0, k as int, 0) ==> !#[trigger] fails(contributions@, k0, i0),
                sync_aggregate.sync_committee_signature.seed == AggregateSeed::Infinity,
                sync_aggregate.sync_committee_signature.added@ == Seq::new(
                    k as nat,
                    |j: int| contributions@[j].signature,
                ),
            decreases contributions.len() - k,
        {
            let contribution = &contributions[k];
            let participation = subcommittee_bits_of(&contribution.aggregation_bits);
            let mut index: usize = 0;
            while index < participation.len()
                invariant
                    k < contributions.len(),
                    index <= SYNC_SUBCOMMITTEE_SIZE,
                    participation@ == contributions@[k as int].bits(),
                    participation@.len() == SYNC_SUBCOMMITTEE_SIZE,
                    *contribution == contributions@[k as int],
                    sync_subcommittee_size == SYNC_SUBCOMMITTEE_SIZE,
                    sync_aggregate.bits().len() == SYNC_COMMITTEE_SIZE,
                    forall|place: int|
                        0 <= place < SYNC_COMMITTEE_SIZE ==> sync_aggregate.bits()[place]
                            == #[trigger] recorded(contributions@, k as int, index as int, place),
                    forall|k0: int, i0: int|
                        precedes(k0, i0, k as int, index as int) ==> !#[trigger] fails(
                            contributions@,
                            k0,
                            i0,
                        ),
                    sync_aggregate.sync_committee_signature.seed == AggregateSeed::Infinity,
                    sync_aggregate.sync_committee_signature.added@ == Seq::new(
                        k as nat,
                        |j: int| contributions@[j].signature,
                    ),
                decreases SYNC_SUBCOMMITTEE_SIZE - index,
            {
                if participation[index] {
                    let first = match safe_mul(
                        sync_subcommittee_size,
                        #[verifier::truncate]
                        (contribution.subcommittee_index as usize),
                    ) {
                        Ok(first) => first,
                        Err(e) => {
                            assert(fails(contributions@, k as int, index as int));
                            return Err(Error::from(e));
                        },
                    };
                    let participant_index = match safe_add(first, index) {
                        Ok(place) => place,
                        Err(e) => {
                            assert(fails(contributions@, k as int, index as int));
                            return Err(Error::from(e));
                        },
                    };
                    match set_committee_bit(
                        &mut sync_aggregate.sync_committee_bits,
                        participant_index,
                        true,
                    ) {
                        Ok(()) => {},
                        Err(e) => {
                            assert(fails(contributions@, k as int, index as int));
                            return Err(Error::SszTypesError(e));
                        },
                    }
                }
                proof {
                    assert forall|place: int|
                        0 <= place < SYNC_COMMITTEE_SIZE implies sync_aggregate.bits()[place]
                        == #[trigger] recorded(contributions@, k as int, index + 1, place) by {
                        lemma_recorded_step(contributions@, k as int, index as int, place);
                    }
                    assert forall|k0: int, i0: int|
                        precedes(k0, i0, k as int, index + 1) implies !#[trigger] fails(
                        contributions@,
                        k0,
                        i0,
                    ) by {
                        if !precedes(k0, i0, k as int, index as int) {
                            assert(k0 == k && i0 == index);
                        }
                    }
                }
                index += 1;
            }
            sync_aggregate.sync_committee_signature.add_assign_aggregate(&contribution.signature);
            proof {
                assert forall|place: int|
                    0 <= place < SYNC_COMMITTEE_SIZE implies sync_aggregate.bits()[place]
                    == #[trigger] recorded(contributions@, k + 1, 0, place) by {
                    lemma_recorded_next(contributions@, k as int, place);
                }
                assert forall|k0: int, i0: int| precedes(k0, i0, k + 1, 0) implies !#[trigger] fails(
                    contributions@,
                    k0,
                    i0,
                ) by {
                    if fails(contributions@, k0, i0) {
                        assert(precedes(k0, i0, k as int, SYNC_SUBCOMMITTEE_SIZE as int));
                    }
                }
            }
            k += 1;
        }
        proof {
            assert forall|k0: int, i0: int| !#[trigger] fails(contributions@, k0, i0) by {
                if fails(contributions@, k0, i0) {
                    assert(precedes(k0, i0, contributions@.len() as int, 0));
                }
            }
        }
        Ok(sync_aggregate)
    }

    /// Empty aggregate to be used at genesis.
    ///
    /// Contains an empty signature and should *not* be used as the starting point for
    /// aggregation, use `new` instead.
    pub fn empty() -> (aggregate: SyncAggregate)
        ensures
            aggregate.bits() == no_bits(),
            aggregate.sync_committee_signature.seed == AggregateSeed::Empty,
            aggregate.sync_committee_signature.added@ == Seq::<SignatureBytes>::empty(),
    {
        SyncAggregate {
            sync_committee_bits: no_committee_bits(),
            sync_committee_signature: AggregateSignature::empty(),
        }
    }

    /// Returns how many bits are `true` in `self.sync_committee_bits`: the number of members
    /// who took part, which is no more than the committee has.
    pub fn num_set_bits(&self) -> (count: usize)
        ensures
            count == count_set(self.bits()),
            count <= SYNC_COMMITTEE_SIZE,
    {
        count_committee_bits(&self.sync_committee_bits)
    }
}

} // verus!
