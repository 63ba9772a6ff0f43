//! The engine's health together with the channel on which its outward health is published.

use crate::engine_state::{project, EngineState, EngineStateInternal};
use tokio::sync::watch::Sender;
use tokio_stream::wrappers::WatchStream;
use vstd::prelude::*;

verus! {

/// `tokio::sync::watch::Sender`. Nothing of its inside is known here.
#[verifier::external_type_specification]
#[verifier::external_body]
#[verifier::reject_recursive_types(T)]
pub struct ExSender<T>(Sender<T>);

/// `tokio_stream::wrappers::WatchStream`. Nothing of its inside is known here.
#[verifier::external_type_specification]
#[verifier::external_body]
#[verifier::reject_recursive_types(T)]
pub struct ExWatchStream<T>(WatchStream<T>);

/// The value that the channel behind `notifier` currently holds.
pub uninterp spec fn channel_value(notifier: Sender<EngineState>) -> EngineState;

/// The number of change notifications that the channel behind `notifier` has issued to its
/// receivers since it was made.
pub uninterp spec fn channel_changes(notifier: Sender<EngineState>) -> nat;

/// Stores `value` in `slot` and says whether that changed what the slot held.
fn overwrite(slot: &mut EngineState, value: EngineState) -> (changed: bool)
    ensures
        *final(slot) == value,
        changed == (*old(slot) != value),
{
    let changed = *slot != value;
    *slot = value;
    changed
}

/// `tokio::sync::watch::channel`, keeping the sending half: a fresh channel holds the value it
/// was made with and has notified nobody.
#[verifier::external_body]
fn open_channel(initial: EngineState) -> (notifier: Sender<EngineState>)
    ensures
        channel_value(notifier) == initial,
        channel_changes(notifier) == 0,
{
    let (notifier, _receiver) = tokio::sync::watch::channel(initial);
    notifier
}

/// `tokio::sync::watch::Sender::send_if_modified`, handed [`overwrite`] as its closure: the
/// channel's value becomes `value`, and the receivers are notified (once) exactly when the
/// closure reports a change, which is also what the call returns.
#[verifier::external_body]
fn send_if_changed(notifier: &mut Sender<EngineState>, value: EngineState) -> (changed: bool)
    ensures
        channel_value(*final(notifier)) == value,
        changed == (channel_value(*old(notifier)) != value),
        channel_changes(*final(notifier)) == channel_changes(*old(notifier)) + if changed {
            1nat
        } else {
            0nat
        },
    no_unwind
{
    notifier.send_if_modified(|last| overwrite(last, value))
}

/// The number of change notifications of its channel that `stream` has taken note of: those
/// that the channel had issued when the stream was made, and those that the stream has
/// reported since.
pub uninterp spec fn stream_seen(stream: WatchStream<EngineState>) -> nat;

/// Whether `stream` has yet to yield its first value. Such a stream does not wait for a
/// change: when it is next polled, it yields the value that its channel holds at that time.
pub uninterp spec fn yields_current_first(stream: WatchStream<EngineState>) -> bool;

/// `tokio::sync::watch::Sender::subscribe`, wrapped by
/// `tokio_stream::wrappers::WatchStream::new`: a stream that watches the channel from now on.
/// It has taken note of every notification that the channel has issued so far, so that it
/// reports none of them as a change, and it has yet to yield its first value, which will be
/// the value that the channel holds when the stream is first polled.
#[verifier::external_body]
fn subscribe(notifier: &Sender<EngineState>) -> (stream: WatchStream<EngineState>)
    ensures
        stream_seen(stream) == channel_changes(*notifier),
        yields_current_first(stream),
{
    WatchStream::new(notifier.subscribe())
}

/// The engine's health, with the channel that reports its outward health to watchers.
pub struct State {
    state: EngineStateInternal,
    notifier: Sender<EngineState>,
}

impl State {
    /// The internal health.
    pub closed spec fn health(&self) -> EngineStateInternal {
        self.state
    }

    /// The outward health that watchers currently see.
    pub closed spec fn published(&self) -> EngineState {
        channel_value(self.notifier)
    }

    /// How many change notifications the watchers have been sent so far.
    pub closed spec fn notifications(&self) -> nat {
        channel_changes(self.notifier)
    }

    /// Watchers see the projection of the internal health.
    pub open spec fn wf(&self) -> bool {
        self.published() == project(self.health())
    }

    /// Sets the internal health and notifies the watchers if, and only if, the outward health
    /// they last saw differs from the new one.
    pub fn update(&mut self, new_state: EngineStateInternal)
        ensures
            final(self).health() == new_state,
            final(self).published() == project(new_state),
            final(self).wf(),
            final(self).notifications() == old(self).notifications() + if old(self).published()
                != project(new_state) {
                1nat
            } else {
                0nat
            },
        no_unwind
    {
        self.state = new_state;
        let projected = match new_state {
            EngineStateInternal::Synced | EngineStateInternal::Syncing => EngineState::Online,
            EngineStateInternal::Offline | EngineStateInternal::AuthFailed => EngineState::Offline,
        };
        send_if_changed(&mut self.notifier, projected);
    }

    /// Gives a stream of the outward health. It may be called any number of times, and each
    /// stream is read on its own.
    ///
    /// The stream watches this state from now on: the notifications that were sent before it
    /// was made are behind it, and every later one is ahead of it. It first yields the health
    /// that is published when it is first polled, and then the latest health after each
    /// notification that it has not yet taken note of.
    pub fn watch(&self) -> (stream: WatchStream<EngineState>)
        ensures
            stream_seen(stream) == self.notifications(),
            yields_current_first(stream),
    {
        subscribe(&self.notifier)
    }

    /// The internal health, read at this moment.
    pub fn state(&self) -> (state: EngineStateInternal)
        ensures
            state == self.health(),
        no_unwind
    {
        self.state
    }
}

impl Default for State {
    /// A state that is offline, on a channel of its own that has notified nobody.
    fn default() -> (state: State)
        ensures
            state.health() == EngineStateInternal::Offline,
            state.published() == EngineState::Offline,
            state.notifications() == 0,
            state.wf(),
    {
        let state = EngineStateInternal::default();
        let notifier = open_channel(state.into());
        State { state, notifier }
    }
}

/// The health that stands after `updates` were applied in order to a state that had the health
/// `start`.
pub open spec fn health_after_updates(
    start: EngineStateInternal,
    updates: Seq<EngineStateInternal>,
) -> EngineStateInternal {
    if updates.len() == 0 {
        start
    } else {
        updates.last()
    }
}

/// The outward health that watchers see after `updates` were applied in order to a state whose
/// watchers saw `published`.
pub open spec fn published_after_updates(
    published: EngineState,
    updates: Seq<EngineStateInternal>,
) -> EngineState {
    if updates.len() == 0 {
        published
    } else {
        project(updates.last())
    }
}

/// The number of change notifications that watchers are sent while `updates` are applied in
/// order to a state whose watchers saw `published`: each update counts as [`State::update`]
/// does.
pub open spec fn notifications_during(
    published: EngineState,
    updates: Seq<EngineStateInternal>,
) -> nat
    decreases updates.len(),
{
    if updates.len() == 0 {
        0
    } else {
        let earlier = updates.drop_last();
        notifications_during(published, earlier) + if published_after_updates(published, earlier)
            != project(updates.last()) {
            1nat
        } else {
            0nat
        }
    }
}

/// The number of places in `updates` at which the outward health changes, that is, at which
/// the projection of the health differs from the projection of the health before it; before
/// the first stands `start`.
pub open spec fn projected_changes(start: EngineStateInternal, updates: Seq<EngineStateInternal>) -> nat
    decreases updates.len(),
{
    if updates.len() == 0 {
        0
    } else {
        let earlier = updates.drop_last();
        projected_changes(start, earlier) + if project(health_after_updates(start, earlier))
            != project(updates.last()) {
            1nat
        } else {
            0nat
        }
    }
}

/// Watchers are notified only of changes of the outward health. Whatever updates are applied
/// to a state whose watchers see the projection of its health, there are as many notifications
/// as there are places at which the projected health changes, and at most one for each update;
/// afterwards the watchers again see the projection of the health.
pub proof fn lemma_notified_only_of_projected_changes(
    start: EngineStateInternal,
    updates: Seq<EngineStateInternal>,
)
    ensures
        notifications_during(project(start), updates) == projected_changes(start, updates),
        notifications_during(project(start), updates) <= updates.len(),
        published_after_updates(project(start), updates) == project(
            health_after_updates(start, updates),
        ),
    decreases updates.len(),
{
    if updates.len() > 0 {
        lemma_notified_only_of_projected_changes(start, updates.drop_last());
    }
}

/// Updates that are applied one run after another notify as often as the two runs do, the
/// second of which starts from what the watchers saw after the first.
pub proof fn lemma_notifications_add_up(
    published: EngineState,
    first: Seq<EngineStateInternal>,
    second: Seq<EngineStateInternal>,
)
    ensures
        notifications_during(published, first + second) == notifications_during(published, first)
            + notifications_during(published_after_updates(published, first), second),
        published_after_updates(published, first + second) == published_after_updates(
            published_after_updates(published, first),
            second,
        ),
    decreases second.len(),
{
    if second.len() == 0 {
        assert(first + second =~= first);
    } else {
        let all = first + second;
        assert(all.drop_last() =~= first + second.drop_last());
        assert(all.last() == second.last());
        lemma_notifications_add_up(published, first, second.drop_last());
    }
}

/// An update that leaves the outward health as it is notifies nobody, and one that changes it
/// notifies once.
pub proof fn lemma_one_update(published: EngineState, new_state: EngineStateInternal)
    ensures
        notifications_during(published, seq![new_state]) == if published != project(new_state) {
            1nat
        } else {
            0nat
        },
{
    let updates = seq![new_state];
    assert(updates.drop_last().len() == 0);
    assert(notifications_during(published, updates.drop_last()) == 0);
}

} // verus!
