use execution_layer::engine_api::{
    EngineApiError, ForkchoiceState, ForkchoiceUpdatedResponse, PayloadAttributes, PayloadId,
    PayloadStatusV1, PayloadStatusV1Status,
};
use execution_layer::engine_state::{EngineState, EngineStateInternal};
use execution_layer::engines::{
    forkchoice_replay, Engine, EngineError, ForkchoiceReplay, UpcheckTrigger,
};
use execution_layer::notifier::State;
use execution_layer::payload_id_cache::PayloadIdCache;
use execution_layer::primitives::{Address, ExecutionBlockHash, Hash256};
use execution_layer::response_cache::{
    ResponseCacheAction, ResponseCacheCall, CACHED_RESPONSE_AGE_LIMIT_SECS,
};
use std::pin::Pin;
use std::task::{Context, Poll, Waker};
use tokio_stream::wrappers::WatchStream;
use tokio_stream::Stream;

fn poll_engine_health(stream: &mut WatchStream<EngineState>) -> Poll<Option<EngineState>> {
    let mut context = Context::from_waker(Waker::noop());
    Pin::new(stream).poll_next(&mut context)
}

fn block_hash(byte: u8) -> ExecutionBlockHash {
    ExecutionBlockHash([byte; 32])
}

fn attributes(timestamp: u64) -> PayloadAttributes {
    PayloadAttributes {
        timestamp,
        prev_randao: Hash256([7; 32]),
        suggested_fee_recipient: Address([9; 20]),
    }
}

fn forkchoice(head: u8) -> ForkchoiceState {
    ForkchoiceState {
        head_block_hash: block_hash(head),
        safe_block_hash: block_hash(2),
        finalized_block_hash: block_hash(3),
    }
}

fn answer(payload_id: Option<PayloadId>) -> ForkchoiceUpdatedResponse {
    ForkchoiceUpdatedResponse {
        payload_status: PayloadStatusV1 {
            status: PayloadStatusV1Status::Valid,
            latest_valid_hash: Some(block_hash(1)),
            validation_error: None,
        },
        payload_id,
    }
}

/// Stands for the endpoint's call surface: it counts what is asked of its cached responses.
struct CallSurface {
    capabilities_fetches: usize,
    version_fetches: usize,
    capabilities_clears: usize,
    version_clears: usize,
    capabilities_available: bool,
}

fn call_surface(capabilities_available: bool) -> CallSurface {
    CallSurface {
        capabilities_fetches: 0,
        version_fetches: 0,
        capabilities_clears: 0,
        version_clears: 0,
        capabilities_available,
    }
}

/// Carries a cache action out against the call surface, as a caller of the engine does.
fn carry_out(action: ResponseCacheAction, surface: &mut CallSurface) -> Vec<ResponseCacheCall> {
    let mut calls = Vec::new();
    let mut fetched = false;
    let mut step = 0;
    while let Some(call) = action.call_at(step, fetched) {
        match call {
            ResponseCacheCall::GetCapabilities { age_limit_secs } => {
                assert_eq!(age_limit_secs, 900);
                surface.capabilities_fetches += 1;
                fetched = surface.capabilities_available;
            }
            ResponseCacheCall::GetVersion { age_limit_secs } => {
                assert_eq!(age_limit_secs, 900);
                surface.version_fetches += 1
            }
            ResponseCacheCall::ClearCapabilities => surface.capabilities_clears += 1,
            ResponseCacheCall::ClearVersion => surface.version_clears += 1,
        }
        calls.push(call);
        step += 1;
    }
    calls
}

#[test]
fn new_engine_is_offline_with_an_empty_cache() {
    let mut engine = Engine::new();
    assert!(engine.is_offline());
    assert!(!engine.is_synced());
    assert_eq!(engine.get_latest_forkchoice_state(), None);
    assert_eq!(engine.get_payload_id(&block_hash(1), &attributes(1)), None);
    assert_eq!(engine.send_latest_forkchoice_state(), ForkchoiceReplay::NoHead);
    let mut watcher = engine.watch_state();
    assert_eq!(poll_engine_health(&mut watcher), Poll::Ready(Some(EngineState::Offline)));
    assert_eq!(poll_engine_health(&mut watcher), Poll::Pending);
}

#[test]
fn upcheck_follows_the_probe() {
    let cases = vec![
        (Ok(()), EngineStateInternal::Synced, ResponseCacheAction::Update, true, false),
        (
            Err(EngineApiError::IsSyncing),
            EngineStateInternal::Syncing,
            ResponseCacheAction::Update,
            false,
            false,
        ),
        (
            Err(EngineApiError::Auth("bad token".to_string())),
            EngineStateInternal::AuthFailed,
            ResponseCacheAction::Clear,
            false,
            true,
        ),
        (
            Err(EngineApiError::Failed("timed out".to_string())),
            EngineStateInternal::Offline,
            ResponseCacheAction::Clear,
            false,
            true,
        ),
    ];
    for prior in [
        Ok(()),
        Err(EngineApiError::IsSyncing),
        Err(EngineApiError::Auth("x".to_string())),
        Err(EngineApiError::Failed("x".to_string())),
    ] {
        for (probe, state, cache_action, synced, offline) in cases.clone() {
            let mut engine = Engine::new();
            engine.upcheck(prior.clone());
            let outcome = engine.upcheck(probe);
            assert_eq!(outcome.state, state);
            assert_eq!(outcome.cache_action, cache_action);
            assert_eq!(engine.is_synced(), synced);
            assert_eq!(engine.is_offline(), offline);
        }
    }
}

#[test]
fn request_success_while_offline_schedules_upcheck_and_engine_comes_online() {
    let mut engine = Engine::new();
    let mut watcher = engine.watch_state();
    assert_eq!(poll_engine_health(&mut watcher), Poll::Ready(Some(EngineState::Offline)));

    let (result, upcheck) = engine.request(Ok::<u32, EngineApiError>(42));
    assert!(matches!(result, Ok(42)));
    assert_eq!(upcheck, Some(UpcheckTrigger::AfterSuccess));
    // The request itself changes nothing.
    assert!(engine.is_offline());
    assert_eq!(poll_engine_health(&mut watcher), Poll::Pending);

    // The upcheck that was scheduled runs; its probe succeeds.
    let outcome = engine.upcheck(Ok(()));
    assert_eq!(outcome.state, EngineStateInternal::Synced);
    assert!(engine.is_synced());
    assert!(!engine.is_offline());
    // Exactly one change notification, which says "online".
    assert_eq!(poll_engine_health(&mut watcher), Poll::Ready(Some(EngineState::Online)));
    assert_eq!(poll_engine_health(&mut watcher), Poll::Pending);
}

#[test]
fn request_success_while_synced_schedules_nothing() {
    let mut engine = Engine::new();
    engine.upcheck(Ok(()));
    let (result, upcheck) = engine.request(Ok::<&str, EngineApiError>("payload"));
    assert!(matches!(result, Ok("payload")));
    assert_eq!(upcheck, None);
}

#[test]
fn request_success_while_syncing_schedules_upcheck() {
    let mut engine = Engine::new();
    engine.upcheck(Err(EngineApiError::IsSyncing));
    let (_, upcheck) = engine.request(Ok::<u8, EngineApiError>(1));
    assert_eq!(upcheck, Some(UpcheckTrigger::AfterSuccess));
}

#[test]
fn request_failure_always_schedules_upcheck_and_wraps_the_error() {
    for synced in [false, true] {
        let mut engine = Engine::new();
        if synced {
            engine.upcheck(Ok(()));
        }
        let (result, upcheck) =
            engine.request(Err::<u32, EngineApiError>(EngineApiError::Failed("boom".to_string())));
        match result {
            Err(EngineError::Api { error }) => {
                assert_eq!(error, EngineApiError::Failed("boom".to_string()))
            }
            other => panic!("unexpected result: {:?}", other),
        }
        assert_eq!(upcheck, Some(UpcheckTrigger::AfterError));
        // The health is not touched by the request: only the upcheck changes it.
        assert_eq!(engine.is_synced(), synced);
    }
}

#[test]
fn forkchoice_update_with_attributes_caches_payload_id() {
    let mut engine = Engine::new();
    let payload_id: PayloadId = [1, 2, 3, 4, 5, 6, 7, 8];
    let (response, unexpected) = engine.notify_forkchoice_updated(
        forkchoice(0x11),
        Some(attributes(100)),
        Ok(answer(Some(payload_id))),
    );
    assert_eq!(response, Ok(answer(Some(payload_id))));
    assert_eq!(unexpected, None);
    assert_eq!(engine.get_payload_id(&block_hash(0x11), &attributes(100)), Some(payload_id));
    // Other attributes, or another head, find nothing.
    assert_eq!(engine.get_payload_id(&block_hash(0x11), &attributes(101)), None);
    assert_eq!(engine.get_payload_id(&block_hash(0x12), &attributes(100)), None);
    let mut other_recipient = attributes(100);
    other_recipient.suggested_fee_recipient = Address([8; 20]);
    assert_eq!(engine.get_payload_id(&block_hash(0x11), &other_recipient), None);
    // The safe and finalized hashes are no part of the key.
    assert_eq!(engine.get_payload_id(&block_hash(0x11), &attributes(100)), Some(payload_id));
}

#[test]
fn forkchoice_update_replaces_payload_id_for_same_key() {
    let mut engine = Engine::new();
    engine.notify_forkchoice_updated(forkchoice(1), Some(attributes(5)), Ok(answer(Some([1; 8]))));
    engine.notify_forkchoice_updated(forkchoice(1), Some(attributes(5)), Ok(answer(Some([2; 8]))));
    assert_eq!(engine.get_payload_id(&block_hash(1), &attributes(5)), Some([2; 8]));
}

#[test]
fn payload_id_without_attributes_is_discarded() {
    let mut engine = Engine::new();
    let (response, unexpected) =
        engine.notify_forkchoice_updated(forkchoice(1), None, Ok(answer(Some([4; 8]))));
    assert_eq!(response, Ok(answer(Some([4; 8]))));
    assert_eq!(unexpected, Some([4; 8]));
    assert_eq!(engine.get_payload_id(&block_hash(1), &attributes(5)), None);
}

#[test]
fn forkchoice_update_without_payload_id_caches_nothing() {
    let mut engine = Engine::new();
    let (response, unexpected) =
        engine.notify_forkchoice_updated(forkchoice(1), Some(attributes(5)), Ok(answer(None)));
    assert_eq!(response, Ok(answer(None)));
    assert_eq!(unexpected, None);
    assert_eq!(engine.get_payload_id(&block_hash(1), &attributes(5)), None);
}

#[test]
fn failed_forkchoice_update_is_handed_back() {
    let mut engine = Engine::new();
    let (response, unexpected) = engine.notify_forkchoice_updated(
        forkchoice(1),
        Some(attributes(5)),
        Err(EngineApiError::IsSyncing),
    );
    assert_eq!(response, Err(EngineApiError::IsSyncing));
    assert_eq!(unexpected, None);
    assert_eq!(engine.get_payload_id(&block_hash(1), &attributes(5)), None);
}

#[test]
fn latest_forkchoice_state_is_overwritten() {
    let mut engine = Engine::new();
    engine.set_latest_forkchoice_state(forkchoice(1));
    assert_eq!(engine.get_latest_forkchoice_state(), Some(forkchoice(1)));
    engine.set_latest_forkchoice_state(forkchoice(2));
    assert_eq!(engine.get_latest_forkchoice_state(), Some(forkchoice(2)));
    assert_eq!(engine.send_latest_forkchoice_state(), ForkchoiceReplay::Send(forkchoice(2)));
}

#[test]
fn reconnection_replays_the_stored_forkchoice_state_once() {
    let mut engine = Engine::new();
    engine.set_latest_forkchoice_state(forkchoice(0xaa));
    let outcome = engine.upcheck(Ok(()));
    assert_eq!(outcome.replay, Some(ForkchoiceReplay::Send(forkchoice(0xaa))));
    // Once synced, a further successful probe replays nothing.
    let outcome = engine.upcheck(Ok(()));
    assert_eq!(outcome.replay, None);
    // After a resync it is replayed again.
    let outcome = engine.upcheck(Err(EngineApiError::IsSyncing));
    assert_eq!(outcome.replay, None);
    let outcome = engine.upcheck(Ok(()));
    assert_eq!(outcome.replay, Some(ForkchoiceReplay::Send(forkchoice(0xaa))));
}

#[test]
fn reconnection_without_forkchoice_state_replays_nothing() {
    let mut engine = Engine::new();
    let outcome = engine.upcheck(Ok(()));
    assert_eq!(outcome.replay, Some(ForkchoiceReplay::NoHead));
}

#[test]
fn reconnection_with_zero_head_replays_nothing() {
    let mut engine = Engine::new();
    engine.set_latest_forkchoice_state(forkchoice(0));
    assert!(forkchoice(0).head_block_hash.is_zero());
    assert_eq!(ExecutionBlockHash::zero(), block_hash(0));
    let outcome = engine.upcheck(Ok(()));
    assert_eq!(outcome.replay, Some(ForkchoiceReplay::ExecutionNotEnabled));
    // A head of which one byte is set is no zero hash.
    let mut head = [0u8; 32];
    head[31] = 1;
    assert!(!ExecutionBlockHash(head).is_zero());
}

#[test]
fn failed_probe_replays_nothing() {
    let mut engine = Engine::new();
    engine.set_latest_forkchoice_state(forkchoice(1));
    for probe in [
        Err(EngineApiError::IsSyncing),
        Err(EngineApiError::Auth("no".to_string())),
        Err(EngineApiError::Failed("no".to_string())),
    ] {
        assert_eq!(engine.upcheck(probe).replay, None);
    }
}

#[test]
fn auth_failure_takes_engine_offline_and_clears_cached_responses() {
    let mut engine = Engine::new();
    engine.notify_forkchoice_updated(forkchoice(1), Some(attributes(5)), Ok(answer(Some([3; 8]))));
    engine.upcheck(Ok(()));
    let mut watcher = engine.watch_state();
    assert_eq!(poll_engine_health(&mut watcher), Poll::Ready(Some(EngineState::Online)));

    let outcome = engine.upcheck(Err(EngineApiError::Auth("invalid jwt".to_string())));
    assert_eq!(outcome.state, EngineStateInternal::AuthFailed);
    assert!(engine.is_offline());
    assert!(!engine.is_synced());
    assert_eq!(poll_engine_health(&mut watcher), Poll::Ready(Some(EngineState::Offline)));
    assert_eq!(outcome.cache_action, ResponseCacheAction::Clear);

    let mut surface = call_surface(true);
    let calls = carry_out(outcome.cache_action, &mut surface);
    assert_eq!(calls, vec![ResponseCacheCall::ClearCapabilities, ResponseCacheCall::ClearVersion]);
    assert_eq!(surface.capabilities_clears, 1);
    assert_eq!(surface.version_clears, 1);
    assert_eq!(surface.capabilities_fetches, 0);
    assert_eq!(surface.version_fetches, 0);
    // The payload identifiers are left alone.
    assert_eq!(engine.get_payload_id(&block_hash(1), &attributes(5)), Some([3; 8]));
}

#[test]
fn refresh_fetches_version_only_after_capabilities() {
    let mut surface = call_surface(true);
    let calls = carry_out(ResponseCacheAction::Update, &mut surface);
    assert_eq!(
        calls,
        vec![
            ResponseCacheCall::GetCapabilities { age_limit_secs: 900 },
            ResponseCacheCall::GetVersion { age_limit_secs: 900 }
        ]
    );

    let mut surface = call_surface(false);
    let calls = carry_out(ResponseCacheAction::Update, &mut surface);
    assert_eq!(calls, vec![ResponseCacheCall::GetCapabilities { age_limit_secs: 900 }]);
    assert_eq!(surface.version_fetches, 0);

    let mut surface = call_surface(true);
    assert_eq!(carry_out(ResponseCacheAction::Nothing, &mut surface), vec![]);
    assert_eq!(ResponseCacheAction::default(), ResponseCacheAction::Nothing);
    assert_eq!(CACHED_RESPONSE_AGE_LIMIT_SECS, 15 * 60);
}

#[test]
fn call_at_is_exact_at_every_step() {
    let nothing = ResponseCacheAction::Nothing;
    let update = ResponseCacheAction::Update;
    let clear = ResponseCacheAction::Clear;
    for fetched in [false, true] {
        assert_eq!(nothing.call_at(0, fetched), None);
        assert_eq!(
            update.call_at(0, fetched),
            Some(ResponseCacheCall::GetCapabilities { age_limit_secs: 900 })
        );
        assert_eq!(update.call_at(2, fetched), None);
        assert_eq!(clear.call_at(0, fetched), Some(ResponseCacheCall::ClearCapabilities));
        assert_eq!(clear.call_at(1, fetched), Some(ResponseCacheCall::ClearVersion));
        assert_eq!(clear.call_at(2, fetched), None);
        assert_eq!(clear.call_at(usize::MAX, fetched), None);
    }
    assert_eq!(
        update.call_at(1, true),
        Some(ResponseCacheCall::GetVersion { age_limit_secs: 900 })
    );
    assert_eq!(update.call_at(1, false), None);
}

#[test]
fn upcheck_tasks_are_named() {
    assert_eq!(UpcheckTrigger::AfterSuccess.task_name(), "upcheck_after_success");
    assert_eq!(UpcheckTrigger::AfterError.task_name(), "upcheck_after_error");
}

#[test]
fn engine_keeps_at_most_512_payload_ids() {
    let mut engine = Engine::new();
    for number in 0..513u64 {
        engine.notify_forkchoice_updated(
            forkchoice(1),
            Some(attributes(number)),
            Ok(answer(Some(number.to_le_bytes()))),
        );
    }
    // The first one filed is the least recently used: it made room for the last.
    assert_eq!(engine.get_payload_id(&block_hash(1), &attributes(0)), None);
    for number in 1..513u64 {
        assert_eq!(
            engine.get_payload_id(&block_hash(1), &attributes(number)),
            Some(number.to_le_bytes())
        );
    }
}

#[test]
fn parts_guarded_apart_decide_as_the_engine_does() {
    let mut state = State::default();
    let mut cache = PayloadIdCache::new();
    let mut watcher = state.watch();
    assert_eq!(poll_engine_health(&mut watcher), Poll::Ready(Some(EngineState::Offline)));
    assert!(state.is_offline());
    assert!(!state.is_synced());

    let (result, upcheck) = state.request(Ok::<u32, EngineApiError>(7));
    assert!(matches!(result, Ok(7)));
    assert_eq!(upcheck, Some(UpcheckTrigger::AfterSuccess));

    let outcome = state.upcheck(Some(forkchoice(9)), Ok(()));
    assert_eq!(outcome.state, EngineStateInternal::Synced);
    assert_eq!(outcome.replay, Some(ForkchoiceReplay::Send(forkchoice(9))));
    assert_eq!(outcome.cache_action, ResponseCacheAction::Update);
    assert!(state.is_synced());
    assert!(!state.is_offline());
    assert_eq!(poll_engine_health(&mut watcher), Poll::Ready(Some(EngineState::Online)));
    assert_eq!(poll_engine_health(&mut watcher), Poll::Pending);

    let (_, upcheck) = state.request(Ok::<u32, EngineApiError>(7));
    assert_eq!(upcheck, None);
    let (result, upcheck) = state.request(Err::<u32, EngineApiError>(EngineApiError::IsSyncing));
    assert!(matches!(result, Err(EngineError::Api { error: EngineApiError::IsSyncing })));
    assert_eq!(upcheck, Some(UpcheckTrigger::AfterError));

    let outcome = state.upcheck(Some(forkchoice(9)), Ok(()));
    assert_eq!(outcome.replay, None);
    let outcome = state.upcheck(None, Err(EngineApiError::Failed("gone".to_string())));
    assert_eq!(outcome.state, EngineStateInternal::Offline);
    assert_eq!(outcome.cache_action, ResponseCacheAction::Clear);
    assert_eq!(poll_engine_health(&mut watcher), Poll::Ready(Some(EngineState::Offline)));

    let (response, unexpected) =
        cache.notify_forkchoice_updated(forkchoice(1), Some(attributes(5)), Ok(answer(Some([3; 8]))));
    assert_eq!(response, Ok(answer(Some([3; 8]))));
    assert_eq!(unexpected, None);
    assert_eq!(cache.get(&block_hash(1), &attributes(5)), Some([3; 8]));
    let (_, unexpected) = cache.notify_forkchoice_updated(forkchoice(1), None, Ok(answer(Some([4; 8]))));
    assert_eq!(unexpected, Some([4; 8]));
    assert_eq!(cache.len(), 1);
}

#[test]
fn forkchoice_replay_of_each_stored_state() {
    assert_eq!(forkchoice_replay(None), ForkchoiceReplay::NoHead);
    assert_eq!(forkchoice_replay(Some(forkchoice(0))), ForkchoiceReplay::ExecutionNotEnabled);
    assert_eq!(forkchoice_replay(Some(forkchoice(1))), ForkchoiceReplay::Send(forkchoice(1)));
}
