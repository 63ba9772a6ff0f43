//! Values exchanged with the execution endpoint: block hashes, payload-build attributes,
//! forkchoice parameters and the endpoint's answers and errors.

use crate::primitives::{Address, ExecutionBlockHash, Hash256};
use vstd::prelude::*;

verus! {

/// The handle under which the endpoint keeps a payload that it was asked to build.
pub type PayloadId = [u8; 8];

/// What the endpoint is told about the payload it should start to build.
#[derive(Copy, Clone, PartialEq, Eq, Hash, Debug)]
pub struct PayloadAttributes {
    pub timestamp: u64,
    pub prev_randao: Hash256,
    pub suggested_fee_recipient: Address,
}

/// The head, safe and finalized blocks that the node currently follows.
#[derive(Copy, Clone, PartialEq, Debug)]
pub struct ForkchoiceState {
    pub head_block_hash: ExecutionBlockHash,
    pub safe_block_hash: ExecutionBlockHash,
    pub finalized_block_hash: ExecutionBlockHash,
}

/// The endpoint's verdict on a payload or a head.
#[derive(Copy, Clone, PartialEq, Eq, Debug, Structural)]
pub enum PayloadStatusV1Status {
    Valid,
    Invalid,
    Syncing,
    Accepted,
    InvalidBlockHash,
}

/// The status part of the endpoint's answer.
#[derive(Clone, PartialEq, Debug)]
pub struct PayloadStatusV1 {
    pub status: PayloadStatusV1Status,
    pub latest_valid_hash: Option<ExecutionBlockHash>,
    pub validation_error: Option<String>,
}

/// The endpoint's answer to a forkchoice update.
#[derive(Clone, PartialEq, Debug)]
pub struct ForkchoiceUpdatedResponse {
    pub payload_status: PayloadStatusV1,
    pub payload_id: Option<PayloadId>,
}

/// Why a call to the endpoint failed.
#[derive(Clone, PartialEq, Debug)]
pub enum EngineApiError {
    /// The endpoint answered that it is still syncing.
    IsSyncing,
    /// The endpoint refused the credentials.
    Auth(String),
    /// Anything else: the endpoint is unreachable, timed out or gave a bad answer.
    Failed(String),
}

} // verus!
