use execution_layer::engine_state::{EngineState, EngineStateInternal};
use execution_layer::notifier::State;
use std::pin::Pin;
use std::task::{Context, Poll, Waker};
use tokio_stream::wrappers::WatchStream;
use tokio_stream::Stream;

/// Polls the stream once, without waiting.
fn poll_health(stream: &mut WatchStream<EngineState>) -> Poll<Option<EngineState>> {
    let mut context = Context::from_waker(Waker::noop());
    Pin::new(stream).poll_next(&mut context)
}

#[test]
fn test_state_notifier() {
    let mut state = State::default();
    let initial_state: EngineState = state.state().into();
    assert_eq!(initial_state, EngineState::Offline);
    state.update(EngineStateInternal::Synced);

    // a watcher that arrives after the first update.
    let mut watcher = state.watch();
    let new_state = match poll_health(&mut watcher) {
        Poll::Ready(Some(new_state)) => new_state,
        _ => panic!("Last state is always present"),
    };
    assert_eq!(new_state, EngineState::Online);
}

#[test]
fn default_state_is_offline() {
    let state = State::default();
    assert_eq!(state.state(), EngineStateInternal::Offline);
    let mut watcher = state.watch();
    assert_eq!(poll_health(&mut watcher), Poll::Ready(Some(EngineState::Offline)));
    assert_eq!(poll_health(&mut watcher), Poll::Pending);
}

#[test]
fn projection_of_each_internal_state() {
    assert_eq!(EngineState::from(EngineStateInternal::Synced), EngineState::Online);
    assert_eq!(EngineState::from(EngineStateInternal::Syncing), EngineState::Online);
    assert_eq!(EngineState::from(EngineStateInternal::Offline), EngineState::Offline);
    assert_eq!(EngineState::from(EngineStateInternal::AuthFailed), EngineState::Offline);
    assert_eq!(EngineStateInternal::default(), EngineStateInternal::Offline);
}

#[test]
fn watcher_is_notified_only_of_projected_changes() {
    let mut state = State::default();
    let mut watcher = state.watch();
    assert_eq!(poll_health(&mut watcher), Poll::Ready(Some(EngineState::Offline)));

    // Offline -> Syncing: the outward health changes, one value is emitted.
    state.update(EngineStateInternal::Syncing);
    assert_eq!(state.state(), EngineStateInternal::Syncing);
    assert_eq!(poll_health(&mut watcher), Poll::Ready(Some(EngineState::Online)));
    assert_eq!(poll_health(&mut watcher), Poll::Pending);

    // Syncing -> Synced: the outward health stays, nothing is emitted.
    state.update(EngineStateInternal::Synced);
    assert_eq!(state.state(), EngineStateInternal::Synced);
    assert_eq!(poll_health(&mut watcher), Poll::Pending);

    // Synced -> AuthFailed: back to offline, one value.
    state.update(EngineStateInternal::AuthFailed);
    assert_eq!(poll_health(&mut watcher), Poll::Ready(Some(EngineState::Offline)));
    assert_eq!(poll_health(&mut watcher), Poll::Pending);

    // AuthFailed -> Offline: silent again.
    state.update(EngineStateInternal::Offline);
    assert_eq!(poll_health(&mut watcher), Poll::Pending);
}

#[test]
fn slow_watcher_sees_the_latest_value_only() {
    let mut state = State::default();
    let mut watcher = state.watch();
    assert_eq!(poll_health(&mut watcher), Poll::Ready(Some(EngineState::Offline)));
    state.update(EngineStateInternal::Synced);
    state.update(EngineStateInternal::Offline);
    state.update(EngineStateInternal::Syncing);
    assert_eq!(poll_health(&mut watcher), Poll::Ready(Some(EngineState::Online)));
    assert_eq!(poll_health(&mut watcher), Poll::Pending);
}

#[test]
fn watchers_are_independent() {
    let mut state = State::default();
    let mut first = state.watch();
    let mut second = state.watch();
    assert_eq!(poll_health(&mut first), Poll::Ready(Some(EngineState::Offline)));
    state.update(EngineStateInternal::Synced);
    assert_eq!(poll_health(&mut first), Poll::Ready(Some(EngineState::Online)));
    // The second watcher was never polled: it starts with the value that is current now, and
    // what the first one has read takes nothing from it.
    assert_eq!(poll_health(&mut second), Poll::Ready(Some(EngineState::Online)));
    assert_eq!(poll_health(&mut second), Poll::Pending);
    assert_eq!(poll_health(&mut first), Poll::Pending);
}

#[test]
fn stream_ends_when_the_state_is_dropped() {
    let state = State::default();
    let mut watcher = state.watch();
    assert_eq!(poll_health(&mut watcher), Poll::Ready(Some(EngineState::Offline)));
    drop(state);
    assert_eq!(poll_health(&mut watcher), Poll::Ready(None));
}

#[test]
fn stream_made_later_reports_no_earlier_change() {
    let mut state = State::default();
    state.update(EngineStateInternal::Synced);
    state.update(EngineStateInternal::Offline);
    state.update(EngineStateInternal::Syncing);

    // Three notifications lie behind this watcher: it yields the present health, and none of
    // them as a change.
    let mut watcher = state.watch();
    assert_eq!(poll_health(&mut watcher), Poll::Ready(Some(EngineState::Online)));
    assert_eq!(poll_health(&mut watcher), Poll::Pending);

    // The next notification lies ahead of it.
    state.update(EngineStateInternal::AuthFailed);
    assert_eq!(poll_health(&mut watcher), Poll::Ready(Some(EngineState::Offline)));
    assert_eq!(poll_health(&mut watcher), Poll::Pending);
}
