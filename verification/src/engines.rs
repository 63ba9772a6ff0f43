//! The coordinator of one execution engine: it remembers the engine's health, the payload
//! identifiers the engine handed out and the forkchoice state the node last issued, and it
//! decides what follows from each answer of the engine.
//!
//! The coordinator makes no call to the engine itself. Its caller makes the call, hands the
//! outcome in, and carries out what the coordinator then asks for.

use crate::engine_api::{
    EngineApiError, ForkchoiceState, ForkchoiceUpdatedResponse, PayloadAttributes, PayloadId,
};
use crate::engine_state::{project, EngineState, EngineStateInternal};
use crate::notifier::{stream_seen, yields_current_first, State};
use crate::primitives::ExecutionBlockHash;
use crate::payload_id_cache::{
    bounded, inserted, lookup, returned_payload_id, touched, PayloadIdCache, PayloadIdCacheKey,
    PAYLOAD_ID_LRU_CACHE_SIZE,
};
use crate::response_cache::{calls_for, ResponseCacheAction, ResponseCacheCall};
use tokio_stream::wrappers::WatchStream;
use vstd::prelude::*;

verus! {

/// Why a request to the engine gave no result.
#[derive(Debug)]
pub enum EngineError {
    /// The engine was known to be unusable and the call was not made.
    Offline,
    /// The engine's call surface returned an error.
    Api { error: EngineApiError },
    /// The builder's call surface returned an error.
    BuilderApi { error: EngineApiError },
    /// The engine refused the credentials.
    Auth,
}

/// What is to be done with the forkchoice state that the node last issued once the engine has
/// come back.
#[derive(Copy, Clone, Debug, PartialEq)]
pub enum ForkchoiceReplay {
    /// Issue this state to the engine again, without payload attributes.
    Send(ForkchoiceState),
    /// The head of the stored state has no execution block yet: there is nothing to tell.
    ExecutionNotEnabled,
    /// No state was ever stored.
    NoHead,
}

/// Why an upcheck is to be run after a request.
#[derive(Copy, Clone, Debug, PartialEq, Eq, Structural)]
pub enum UpcheckTrigger {
    /// The request succeeded while the engine was not known to be synced.
    AfterSuccess,
    /// The request failed.
    AfterError,
}

impl UpcheckTrigger {
    /// The name of the task that runs the upcheck.
    pub open spec fn spec_task_name(self) -> Seq<char> {
        match self {
            UpcheckTrigger::AfterSuccess => "upcheck_after_success"@,
            UpcheckTrigger::AfterError => "upcheck_after_error"@,
        }
    }

    /// The name of the task that runs the upcheck.
    pub fn task_name(self) -> (name: &'static str)
        ensures
            name@ == self.spec_task_name(),
    {
        match self {
            UpcheckTrigger::AfterSuccess => "upcheck_after_success",
            UpcheckTrigger::AfterError => "upcheck_after_error",
        }
    }
}

/// What an upcheck found and what it leaves to be done.
#[derive(Copy, Clone, Debug, PartialEq)]
pub struct UpcheckOutcome {
    /// The health that the engine now has.
    pub state: EngineStateInternal,
    /// What to do with the last forkchoice state, where the engine has just become synced.
    pub replay: Option<ForkchoiceReplay>,
    /// What to do with the cached capabilities and version, after the health was published.
    pub cache_action: ResponseCacheAction,
}

/// The health that follows from the outcome of a liveness probe, whatever it was before.
pub open spec fn health_after(probe: Result<(), EngineApiError>) -> EngineStateInternal {
    match probe {
        Ok(_) => EngineStateInternal::Synced,
        Err(EngineApiError::IsSyncing) => EngineStateInternal::Syncing,
        Err(EngineApiError::Auth(_)) => EngineStateInternal::AuthFailed,
        Err(EngineApiError::Failed(_)) => EngineStateInternal::Offline,
    }
}

/// What follows for the cached responses from the outcome of a liveness probe: they are
/// refreshed while the engine answers, and forgotten when it does not or refuses the
/// credentials (it may come back as another version with other capabilities).
pub open spec fn cache_action_after(probe: Result<(), EngineApiError>) -> ResponseCacheAction {
    match probe {
        Ok(_) | Err(EngineApiError::IsSyncing) => ResponseCacheAction::Update,
        Err(EngineApiError::Auth(_)) | Err(EngineApiError::Failed(_)) => ResponseCacheAction::Clear,
    }
}

/// What is to be done with the stored forkchoice state `latest` when the engine has come back.
pub open spec fn replay_of(latest: Option<ForkchoiceState>) -> ForkchoiceReplay {
    match latest {
        Some(forkchoice_state) => if forkchoice_state.head_block_hash.spec_is_zero() {
            ForkchoiceReplay::ExecutionNotEnabled
        } else {
            ForkchoiceReplay::Send(forkchoice_state)
        },
        None => ForkchoiceReplay::NoHead,
    }
}

/// The forkchoice replay that an upcheck asks for: one only where the probe succeeded and the
/// engine was not synced before.
pub open spec fn replay_after(
    prior: EngineStateInternal,
    latest: Option<ForkchoiceState>,
    probe: Result<(), EngineApiError>,
) -> Option<ForkchoiceReplay> {
    if probe is Ok && prior != EngineStateInternal::Synced {
        Some(replay_of(latest))
    } else {
        None
    }
}

/// The upcheck that is to follow a request with the given outcome, made while the engine had
/// the given health.
pub open spec fn upcheck_after<H>(
    health: EngineStateInternal,
    outcome: Result<H, EngineApiError>,
) -> Option<UpcheckTrigger> {
    match outcome {
        Ok(_) => if health != EngineStateInternal::Synced {
            Some(UpcheckTrigger::AfterSuccess)
        } else {
            None
        },
        Err(_) => Some(UpcheckTrigger::AfterError),
    }
}

/// When the engine comes back, it is told the node's head: a probe that succeeds while the
/// engine was not synced asks for the stored forkchoice state to be sent, once and as it was
/// stored, provided that its head has an execution block. A probe that fails, or one on an
/// engine that was synced already, asks for nothing to be sent.
pub proof fn lemma_reconnection_replays_stored_forkchoice(
    prior: EngineStateInternal,
    stored: ForkchoiceState,
    probe: Result<(), EngineApiError>,
)
    requires
        !stored.head_block_hash.spec_is_zero(),
    ensures
        probe is Ok && prior != EngineStateInternal::Synced ==> replay_after(
            prior,
            Some(stored),
            probe,
        ) == Some(ForkchoiceReplay::Send(stored)),
        probe is Err || prior == EngineStateInternal::Synced ==> replay_after(
            prior,
            Some(stored),
            probe,
        ) == None::<ForkchoiceReplay>,
{
}

/// An engine that refuses the credentials is taken offline and its cached capabilities and
/// version are both forgotten, so that nothing fetched before the refusal is handed out
/// afterwards.
pub proof fn lemma_auth_failure_clears_cached_responses(reason: String, capabilities_fetched: bool)
    ensures
        health_after(Err(EngineApiError::Auth(reason))) == EngineStateInternal::AuthFailed,
        project(health_after(Err(EngineApiError::Auth(reason)))) == EngineState::Offline,
        cache_action_after(Err(EngineApiError::Auth(reason))) == ResponseCacheAction::Clear,
        calls_for(cache_action_after(Err(EngineApiError::Auth(reason))), capabilities_fetched)
            == seq![ResponseCacheCall::ClearCapabilities, ResponseCacheCall::ClearVersion],
{
}

/// Says what is to be sent to an engine that has just come back, given the forkchoice state
/// that was stored last: that state, unless there is none or its head has no execution block.
pub fn forkchoice_replay(latest: Option<ForkchoiceState>) -> (replay: ForkchoiceReplay)
    ensures
        replay == replay_of(latest),
    no_unwind
{
    match latest {
        Some(forkchoice_state) => {
            if forkchoice_state.head_block_hash.is_zero() {
                ForkchoiceReplay::ExecutionNotEnabled
            } else {
                ForkchoiceReplay::Send(forkchoice_state)
            }
        },
        None => ForkchoiceReplay::NoHead,
    }
}

impl State {
    /// Returns `true` if the health is "synced".
    pub fn is_synced(&self) -> (synced: bool)
        ensures
            synced == (self.health() == EngineStateInternal::Synced),
        no_unwind
    {
        match self.state() {
            EngineStateInternal::Synced => true,
            _ => false,
        }
    }

    /// Returns `true` if the health is other than synced or syncing.
    pub fn is_offline(&self) -> (offline: bool)
        ensures
            offline == (project(self.health()) == EngineState::Offline),
    {
        EngineState::from(self.state()) == EngineState::Offline
    }

    /// Takes the outcome of a liveness probe and brings the health up to date, given the
    /// forkchoice state `latest` that was stored last.
    ///
    /// The health becomes what the probe says, whatever it was before, and watchers are
    /// notified if their view changes. Where the health was not synced and now is, the outcome
    /// names what to send the engine of the last forkchoice state. The outcome also names what
    /// to do with the cached capabilities and version; by then the health has been published,
    /// so that the caller holds nothing of the state while it talks to the endpoint.
    pub fn upcheck(
        &mut self,
        latest: Option<ForkchoiceState>,
        probe: Result<(), EngineApiError>,
    ) -> (outcome: UpcheckOutcome)
        ensures
            outcome.state == health_after(probe),
            outcome.replay == replay_after(old(self).health(), latest, probe),
            outcome.cache_action == cache_action_after(probe),
            final(self).health() == health_after(probe),
            final(self).published() == project(health_after(probe)),
            final(self).wf(),
            final(self).notifications() == old(self).notifications() + if old(self).published()
                != project(health_after(probe)) {
                1nat
            } else {
                0nat
            },
        no_unwind
    {
        let (state, replay, cache_action) = match probe {
            Ok(()) => {
                let replay = if self.is_synced() {
                    None
                } else {
                    Some(forkchoice_replay(latest))
                };
                (EngineStateInternal::Synced, replay, ResponseCacheAction::Update)
            },
            Err(EngineApiError::IsSyncing) => (
                EngineStateInternal::Syncing,
                None,
                ResponseCacheAction::Update,
            ),
            Err(EngineApiError::Auth(_)) => (
                EngineStateInternal::AuthFailed,
                None,
                ResponseCacheAction::Clear,
            ),
            Err(EngineApiError::Failed(_)) => (
                EngineStateInternal::Offline,
                None,
                ResponseCacheAction::Clear,
            ),
        };
        self.update(state);
        UpcheckOutcome { state, replay, cache_action }
    }

    /// Takes the outcome of a call that was made on the engine, whatever its health was, and
    /// says whether an upcheck is to follow.
    ///
    /// A result is handed back as it is, with an upcheck to follow where the engine is not
    /// known to be synced. An error is handed back as an [`EngineError::Api`], always with an
    /// upcheck to follow. The upcheck is for the caller to run apart from the request: the
    /// request does not wait for it.
    pub fn request<H>(&self, outcome: Result<H, EngineApiError>) -> (out: (
        Result<H, EngineError>,
        Option<UpcheckTrigger>,
    ))
        ensures
            out.0 == match outcome {
                Ok(result) => Ok::<H, EngineError>(result),
                Err(error) => Err::<H, EngineError>(EngineError::Api { error }),
            },
            out.1 == upcheck_after(self.health(), outcome),
    {
        match outcome {
            Ok(result) => {
                let upcheck = if self.is_synced() {
                    None
                } else {
                    Some(UpcheckTrigger::AfterSuccess)
                };
                (Ok(result), upcheck)
            },
            Err(error) => (Err(EngineError::Api { error }), Some(UpcheckTrigger::AfterError)),
        }
    }
}

/// An execution engine: its health, the payload identifiers it handed out and the forkchoice
/// state that was issued last, held together. A caller that guards the three apart from each
/// other asks [`State`], [`PayloadIdCache`] and [`forkchoice_replay`] instead; the engine asks
/// them too.
pub struct Engine {
    payload_id_cache: PayloadIdCache,
    state: State,
    latest_forkchoice_state: Option<ForkchoiceState>,
}

impl Engine {
    /// The engine's internal health.
    pub closed spec fn health(&self) -> EngineStateInternal {
        self.state.health()
    }

    /// The outward health that watchers currently see.
    pub closed spec fn published(&self) -> EngineState {
        self.state.published()
    }

    /// How many change notifications the watchers have been sent so far.
    pub closed spec fn notifications(&self) -> nat {
        self.state.notifications()
    }

    /// The cached payload identifiers, the most recently used first.
    pub closed spec fn payload_ids(&self) -> Seq<(PayloadIdCacheKey, PayloadId)> {
        self.payload_id_cache@
    }

    /// The forkchoice state that was stored last.
    pub closed spec fn latest_forkchoice(&self) -> Option<ForkchoiceState> {
        self.latest_forkchoice_state
    }

    /// What holds of an engine at all times: watchers see the projection of the internal health,
    /// and the cache of payload identifiers is within its bounds.
    pub open spec fn wf(&self) -> bool {
        &&& self.published() == project(self.health())
        &&& bounded(self.payload_ids())
    }

    #[verifier::type_invariant]
    spec fn inv(self) -> bool {
        self.wf()
    }

    /// Creates a new, offline engine.
    pub fn new() -> (engine: Engine)
        ensures
            engine.health() == EngineStateInternal::Offline,
            engine.published() == EngineState::Offline,
            engine.notifications() == 0,
            engine.payload_ids() == Seq::<(PayloadIdCacheKey, PayloadId)>::empty(),
            engine.latest_forkchoice() == None::<ForkchoiceState>,
            engine.wf(),
    {
        Engine {
            payload_id_cache: PayloadIdCache::new(),
            state: State::default(),
            latest_forkchoice_state: None,
        }
    }

    /// Gives a stream of the engine's outward health.
    ///
    /// This can be called several times. The stream watches the engine from now on: the
    /// notifications that were sent before it was made are behind it, and every later one is
    /// ahead of it. It first yields the health that is published when it is first polled.
    pub fn watch_state(&self) -> (stream: WatchStream<EngineState>)
        ensures
            stream_seen(stream) == self.notifications(),
            yields_current_first(stream),
    {
        self.state.watch()
    }

    /// Looks the payload identifier up that the engine returned for a forkchoice update with this
    /// head and these attributes. The engine is not asked.
    pub fn get_payload_id(
        &mut self,
        head_block_hash: &ExecutionBlockHash,
        payload_attributes: &PayloadAttributes,
    ) -> (found: Option<PayloadId>)
        ensures
            found == lookup(
                old(self).payload_ids(),
                (PayloadIdCacheKey {
                    head_block_hash: *head_block_hash,
                    payload_attributes: *payload_attributes,
                }),
            ),
            final(self).payload_ids() == touched(
                old(self).payload_ids(),
                (PayloadIdCacheKey {
                    head_block_hash: *head_block_hash,
                    payload_attributes: *payload_attributes,
                }),
            ),
            old(self).wf(),
            final(self).wf(),
            final(self).health() == old(self).health(),
            final(self).published() == old(self).published(),
            final(self).notifications() == old(self).notifications(),
            final(self).latest_forkchoice() == old(self).latest_forkchoice(),
    {
        proof {
            use_type_invariant(&*self);
        }
        self.payload_id_cache.get(head_block_hash, payload_attributes)
    }

    /// Takes note of the engine's answer to a forkchoice update that was made with
    /// `forkchoice_state` and `payload_attributes`, and hands the answer back as it is.
    ///
    /// A payload identifier in the answer is filed under the head and the attributes. Where the
    /// update was made without attributes there is nothing to file it under: it is dropped, and
    /// returned beside the answer so that the caller can report it.
    pub fn notify_forkchoice_updated(
        &mut self,
        forkchoice_state: ForkchoiceState,
        payload_attributes: Option<PayloadAttributes>,
        response: Result<ForkchoiceUpdatedResponse, EngineApiError>,
    ) -> (out: (Result<ForkchoiceUpdatedResponse, EngineApiError>, Option<PayloadId>))
        ensures
            out.0 == response,
            out.1 == if payload_attributes is None {
                returned_payload_id(response)
            } else {
                None
            },
            final(self).payload_ids() == match (returned_payload_id(response), payload_attributes) {
                (Some(payload_id), Some(attributes)) => inserted(
                    old(self).payload_ids(),
                    PAYLOAD_ID_LRU_CACHE_SIZE as nat,
                    (PayloadIdCacheKey {
                        head_block_hash: forkchoice_state.head_block_hash,
                        payload_attributes: attributes,
                    }),
                    payload_id,
                ),
                _ => old(self).payload_ids(),
            },
            old(self).wf(),
            final(self).wf(),
            final(self).health() == old(self).health(),
            final(self).published() == old(self).published(),
            final(self).notifications() == old(self).notifications(),
            final(self).latest_forkchoice() == old(self).latest_forkchoice(),
    {
        proof {
            use_type_invariant(&*self);
        }
        self.payload_id_cache.notify_forkchoice_updated(
            forkchoice_state,
            payload_attributes,
            response,
        )
    }

    /// The forkchoice state that was stored last.
    pub fn get_latest_forkchoice_state(&self) -> (latest: Option<ForkchoiceState>)
        ensures
            latest == self.latest_forkchoice(),
    {
        self.latest_forkchoice_state
    }

    /// Stores `state` as the forkchoice state that was issued last, in place of the one before.
    pub fn set_latest_forkchoice_state(&mut self, state: ForkchoiceState)
        ensures
            final(self).latest_forkchoice() == Some(state),
            old(self).wf(),
            final(self).wf(),
            final(self).payload_ids() == old(self).payload_ids(),
            final(self).health() == old(self).health(),
            final(self).published() == old(self).published(),
            final(self).notifications() == old(self).notifications(),
    {
        proof {
            use_type_invariant(&*self);
        }
        self.latest_forkchoice_state = Some(state);
    }

    /// Says what is to be sent to an engine that has just come back: the forkchoice state that
    /// was stored last, unless there is none or its head has no execution block.
    pub fn send_latest_forkchoice_state(&self) -> (replay: ForkchoiceReplay)
        ensures
            replay == replay_of(self.latest_forkchoice()),
    {
        forkchoice_replay(self.latest_forkchoice_state)
    }

    /// Returns `true` if the engine has a "synced" status.
    pub fn is_synced(&self) -> (synced: bool)
        ensures
            synced == (self.health() == EngineStateInternal::Synced),
            self.wf(),
    {
        proof {
            use_type_invariant(self);
        }
        self.state.is_synced()
    }

    /// Returns `true` if the engine has a status other than synced or syncing.
    pub fn is_offline(&self) -> (offline: bool)
        ensures
            offline == (project(self.health()) == EngineState::Offline),
            offline == (self.published() == EngineState::Offline),
            self.wf(),
    {
        proof {
            use_type_invariant(self);
        }
        self.state.is_offline()
    }

    /// Takes the outcome of a liveness probe and brings the engine's health up to date.
    ///
    /// The health becomes what the probe says, whatever it was before, and watchers are
    /// notified if their view changes. Where the engine was not synced and now is, the outcome
    /// names what to send it of the last forkchoice state. The outcome also names what to do
    /// with the cached capabilities and version; by then the health has been published, so
    /// that the caller holds nothing of the engine's state while it talks to the endpoint.
    pub fn upcheck(&mut self, probe: Result<(), EngineApiError>) -> (outcome: UpcheckOutcome)
        ensures
            outcome.state == health_after(probe),
            outcome.replay == replay_after(old(self).health(), old(self).latest_forkchoice(), probe),
            outcome.cache_action == cache_action_after(probe),
            final(self).health() == health_after(probe),
            old(self).wf(),
            final(self).wf(),
            final(self).notifications() == old(self).notifications() + if project(
                old(self).health(),
            ) != project(health_after(probe)) {
                1nat
            } else {
                0nat
            },
            final(self).payload_ids() == old(self).payload_ids(),
            final(self).latest_forkchoice() == old(self).latest_forkchoice(),
    {
        proof {
            use_type_invariant(&*self);
        }
        self.state.upcheck(self.latest_forkchoice_state, probe)
    }

    /// Takes the outcome of a call that was made on the engine, whatever the engine's health
    /// was, and says whether an upcheck is to follow.
    ///
    /// A result is handed back as it is, with an upcheck to follow where the engine is not
    /// known to be synced. An error is handed back as an [`EngineError::Api`], always with an
    /// upcheck to follow. The upcheck is for the caller to run apart from the request: the
    /// request does not wait for it.
    pub fn request<H>(&self, outcome: Result<H, EngineApiError>) -> (out: (
        Result<H, EngineError>,
        Option<UpcheckTrigger>,
    ))
        ensures
            out.0 == match outcome {
                Ok(result) => Ok::<H, EngineError>(result),
                Err(error) => Err::<H, EngineError>(EngineError::Api { error }),
            },
            out.1 == upcheck_after(self.health(), outcome),
    {
        self.state.request(outcome)
    }
}

} // verus!
