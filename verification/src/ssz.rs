//! Bitfields and lists whose length is bounded by their type, as far as this crate uses them:
//! what they hold, and the operations on them.

use ssz_types::length::{Fixed, Variable};
use ssz_types::typenum::{UInt, UTerm, B0, B1, U128, U2048, U512};
use ssz_types::{BitList, BitVector, Bitfield, VariableList};
use vstd::prelude::*;

verus! {

/// The number of members of a sync committee.
pub const SYNC_COMMITTEE_SIZE: usize = 512;

/// The number of members of a subcommittee of a sync committee.
pub const SYNC_SUBCOMMITTEE_SIZE: usize = 128;

/// The greatest number of validators that a committee of attesters can have.
pub const MAX_VALIDATORS_PER_COMMITTEE: usize = 2048;

/// `ssz_types::Bitfield`. Nothing of its inside is known here.
#[verifier::external_type_specification]
#[verifier::external_body]
#[verifier::reject_recursive_types(T)]
pub struct ExBitfield<T>(Bitfield<T>);

/// `ssz_types::length::Fixed`, which marks a bitfield of a fixed length.
#[verifier::external_type_specification]
#[verifier::external_body]
#[verifier::reject_recursive_types(N)]
pub struct ExFixed<N>(Fixed<N>);

/// `typenum::UInt`, of which the lengths in types are made.
#[verifier::external_type_specification]
#[verifier::external_body]
#[verifier::reject_recursive_types(U)]
#[verifier::reject_recursive_types(B)]
pub struct ExUInt<U, B>(UInt<U, B>);

/// `typenum::UTerm`, the end of a length in a type.
#[verifier::external_type_specification]
#[verifier::external_body]
pub struct ExUTerm(UTerm);

/// `typenum::B0`, the bit 0 of a length in a type.
#[verifier::external_type_specification]
#[verifier::external_body]
pub struct ExB0(B0);

/// `typenum::B1`, the bit 1 of a length in a type.
#[verifier::external_type_specification]
#[verifier::external_body]
pub struct ExB1(B1);

/// `ssz_types::length::Variable`, which marks a bitfield of a bounded length.
#[verifier::external_type_specification]
#[verifier::external_body]
#[verifier::reject_recursive_types(N)]
pub struct ExVariable<N>(Variable<N>);

/// `ssz_types::VariableList`. Nothing of its inside is known here.
#[verifier::external_type_specification]
#[verifier::external_body]
#[verifier::reject_recursive_types(T)]
#[verifier::reject_recursive_types(N)]
pub struct ExVariableList<T, N>(VariableList<T, N>);

/// Why an operation on a list or a bitfield of bounded length gave no result.
#[derive(Copy, Clone, Debug, PartialEq, Eq, Structural)]
pub enum SszTypesError {
    OutOfBounds { i: usize, len: usize },
    /// A bit list has no bit set, so that its length cannot be known.
    MissingLengthInformation,
    /// A bit list has bits set beyond its length.
    ExcessBits,
    /// A bit list has another number of bytes than its length asks for.
    InvalidByteCount { given: usize, expected: usize },
}

/// The bits of a sync committee's bitfield, by the members' places.
pub uninterp spec fn committee_bits(bits: BitVector<U512>) -> Seq<bool>;

/// The bits of a subcommittee's bitfield, by the members' places.
pub uninterp spec fn subcommittee_bits(bits: BitVector<U128>) -> Seq<bool>;

/// The number of bits that are set.
pub open spec fn count_set(bits: Seq<bool>) -> nat
    decreases bits.len(),
{
    if bits.len() == 0 {
        0
    } else {
        count_set(bits.drop_last()) + if bits.last() {
            1nat
        } else {
            0nat
        }
    }
}

/// The bits of a committee of which nobody took part.
pub open spec fn no_bits() -> Seq<bool> {
    Seq::new(SYNC_COMMITTEE_SIZE as nat, |i: int| false)
}

/// `ssz_types::BitVector::default`: a bitfield of the committee's size with no bit set.
#[verifier::external_body]
pub(crate) fn no_committee_bits() -> (bits: BitVector<U512>)
    ensures
        committee_bits(bits) == no_bits(),
{
    BitVector::default()
}

/// What setting the bit at `i` of a bitfield of `len` bits returns: it fails, with the index
/// and the length, where `i` lies beyond the bitfield.
pub open spec fn set_outcome(len: usize, i: usize) -> Result<(), SszTypesError> {
    if i < len {
        Ok(())
    } else {
        Err(SszTypesError::OutOfBounds { i, len })
    }
}

/// The bits after the bit at `i` was set to `value`: nothing changes where `i` lies beyond
/// them.
pub open spec fn bits_after_set(bits: Seq<bool>, i: usize, value: bool) -> Seq<bool> {
    if i < bits.len() {
        bits.update(i as int, value)
    } else {
        bits
    }
}

/// `ssz_types::Bitfield::set`, on a bitfield of the committee's size: sets the bit at `i` to
/// `value` where `i` lies within the committee, and fails with the index and the committee's
/// size, changing nothing, where it does not.
#[verifier::external_body]
pub(crate) fn set_committee_bit(
    bits: &mut BitVector<U512>,
    i: usize,
    value: bool,
) -> (done: Result<(), SszTypesError>)
    ensures
        done == set_outcome(SYNC_COMMITTEE_SIZE, i),
        committee_bits(*final(bits)) == bits_after_set(committee_bits(*old(bits)), i, value),
        committee_bits(*final(bits)).len() == SYNC_COMMITTEE_SIZE,
{
    match bits.set(i, value) {
        Ok(()) => Ok(()),
        Err(ssz_types::Error::OutOfBounds { i, len }) => Err(SszTypesError::OutOfBounds { i, len }),
        Err(ssz_types::Error::MissingLengthInformation) => Err(
            SszTypesError::MissingLengthInformation,
        ),
        Err(ssz_types::Error::ExcessBits) => Err(SszTypesError::ExcessBits),
        Err(ssz_types::Error::InvalidByteCount { given, expected }) => Err(
            SszTypesError::InvalidByteCount { given, expected },
        ),
    }
}

/// `ssz_types::Bitfield::num_set_bits`: how many bits of the committee's bitfield are set. They
/// are no more than the committee has members, which is the length of every such bitfield.
#[verifier::external_body]
pub(crate) fn count_committee_bits(bits: &BitVector<U512>) -> (count: usize)
    ensures
        count == count_set(committee_bits(*bits)),
        count <= SYNC_COMMITTEE_SIZE,
{
    bits.num_set_bits()
}

/// `ssz_types::Bitfield::iter`, collected: the bits of a subcommittee's bitfield from the
/// lowest place up, one for each member of a subcommittee.
#[verifier::external_body]
pub(crate) fn subcommittee_bits_of(bits: &BitVector<U128>) -> (out: Vec<bool>)
    ensures
        out@ == subcommittee_bits(*bits),
        out@.len() == SYNC_SUBCOMMITTEE_SIZE,
{
    bits.iter().collect()
}

/// The bits of an attestation's bitfield, by the places of the committee's members.
pub uninterp spec fn attestation_bits(bits: BitList<U2048>) -> Seq<bool>;

/// `ssz_types::Bitfield::iter`, collected: the bits of an attestation's bitfield from the
/// lowest place up. There are no more of them than a committee can have members.
#[verifier::external_body]
pub(crate) fn attestation_bits_of(bits: &BitList<U2048>) -> (out: Vec<bool>)
    ensures
        out@ == attestation_bits(*bits),
        out@.len() <= MAX_VALIDATORS_PER_COMMITTEE,
{
    bits.iter().collect()
}

/// The validator indices that a list of attesting indices holds, in order.
pub uninterp spec fn index_list_items(list: VariableList<u64, U2048>) -> Seq<u64>;

/// Whether a committee can have as many members as `count`.
pub open spec fn within_committee(count: nat) -> bool {
    count <= MAX_VALIDATORS_PER_COMMITTEE
}

/// What making a list of `count` items returns where they are too many: an error that gives
/// their number and the bound.
pub open spec fn too_many(count: nat) -> Result<VariableList<u64, U2048>, SszTypesError> {
    Err(SszTypesError::OutOfBounds { i: count as usize, len: MAX_VALIDATORS_PER_COMMITTEE })
}

/// `ssz_types::VariableList::new`: the list of the given items, unless they are too many.
#[verifier::external_body]
pub(crate) fn new_index_list(items: Vec<u64>) -> (made: Result<
    VariableList<u64, U2048>,
    SszTypesError,
>)
    ensures
        within_committee(items@.len()) ==> made is Ok && index_list_items(made.unwrap()) == items@,
        !within_committee(items@.len()) ==> made == too_many(items@.len()),
{
    match VariableList::new(items) {
        Ok(list) => Ok(list),
        Err(ssz_types::Error::OutOfBounds { i, len }) => Err(SszTypesError::OutOfBounds { i, len }),
        Err(ssz_types::Error::MissingLengthInformation) => Err(
            SszTypesError::MissingLengthInformation,
        ),
        Err(ssz_types::Error::ExcessBits) => Err(SszTypesError::ExcessBits),
        Err(ssz_types::Error::InvalidByteCount { given, expected }) => Err(
            SszTypesError::InvalidByteCount { given, expected },
        ),
    }
}

} // verus!
