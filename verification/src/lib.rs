//! The execution layer of a consensus node: what the node remembers of its execution engine,
//! what it asks of a block builder, and the aggregates it hands to either.
//!
//! - [`engines`]: the coordinator of one execution engine. It tracks the engine's health, keeps
//!   the payload identifiers the engine handed out, and decides what follows from each answer
//!   of the engine.
//! - [`engine_state`], [`notifier`]: the engine's health and the channel on which it is
//!   published to watchers.
//! - [`payload_id_cache`]: the bounded cache of payload identifiers.
//! - [`response_cache`]: the upkeep of the engine's cached capabilities and version.
//! - [`engine_api`], [`primitives`]: the values exchanged with the engine, and the hashes and
//!   keys they are made of.
//! - [`builder_client`]: the requests made of a block builder, with the numbers and hashes in
//!   their addresses written out by [`text`].
//! - [`sync_aggregate`], [`indexed_attestation`]: aggregates of votes, over the bitfields and
//!   lists of [`ssz`] and the arithmetic of [`arith`].
//!
//! Nothing here waits or does I/O: calls to the engine and to the builder are made by the
//! caller, who hands their outcomes in.

pub mod arith;
pub mod builder_client;
pub mod engine_api;
pub mod engine_state;
pub mod engines;
pub mod indexed_attestation;
pub mod notifier;
pub mod payload_id_cache;
pub mod primitives;
pub mod response_cache;
pub mod ssz;
pub mod sync_aggregate;
pub mod text;
