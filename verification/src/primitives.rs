//! The fixed-size values that blocks, validators and signatures are known by.

use vstd::prelude::*;

verus! {

/// A 32-byte hash.
#[derive(Copy, Clone, PartialEq, Eq, Hash, Debug)]
pub struct Hash256(pub [u8; 32]);

/// A 20-byte account address.
#[derive(Copy, Clone, PartialEq, Eq, Hash, Debug)]
pub struct Address(pub [u8; 20]);

/// The hash of an execution block.
#[derive(Copy, Clone, PartialEq, Eq, Hash, Debug)]
pub struct ExecutionBlockHash(pub [u8; 32]);

/// A validator's public key in its compressed form.
#[derive(Copy, Clone, PartialEq, Eq, Hash, Debug)]
pub struct PublicKeyBytes(pub [u8; 48]);

/// A BLS signature in its compressed form.
#[derive(Copy, Clone, Debug, PartialEq, Eq)]
pub struct SignatureBytes(pub [u8; 96]);

impl ExecutionBlockHash {
    /// Whether every byte of the hash is zero.
    pub open spec fn spec_is_zero(&self) -> bool {
        forall|i: int| 0 <= i < 32 ==> self.0[i] == 0u8
    }

    /// The hash of all zeros, which stands for "no execution block".
    pub fn zero() -> (hash: ExecutionBlockHash)
        ensures
            hash.spec_is_zero(),
    {
        ExecutionBlockHash([0u8; 32])
    }

    /// Whether this is the hash of all zeros.
    pub fn is_zero(&self) -> (zero: bool)
        ensures
            zero == self.spec_is_zero(),
        no_unwind
    {
        let mut i: usize = 0;
        while i < 32
            invariant
                i <= 32,
                forall|j: int| 0 <= j < i ==> self.0[j] == 0u8,
            decreases 32 - i,
        {
            if self.0[i] != 0 {
                return false;
            }
            i += 1;
        }
        true
    }
}

} // verus!
