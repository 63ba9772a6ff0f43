//! Upkeep of the endpoint's cached capabilities and version after an upcheck: what is asked of
//! the endpoint's call surface, and in which order.

use vstd::prelude::*;

verus! {

/// The number of seconds after which a cached capabilities or version response is fetched anew
/// when an upcheck refreshes it: 15 minutes.
pub const CACHED_RESPONSE_AGE_LIMIT_SECS: u64 = 900;

/// What an upcheck asks to be done with the cached responses.
#[derive(Copy, Clone, Debug, Eq, PartialEq, Structural)]
pub enum ResponseCacheAction {
    /// Leave them as they are.
    Nothing,
    /// Refresh them where they are older than the age limit.
    Update,
    /// Forget them.
    Clear,
}

impl Default for ResponseCacheAction {
    fn default() -> (action: ResponseCacheAction)
        ensures
            action == ResponseCacheAction::Nothing,
    {
        ResponseCacheAction::Nothing
    }
}

/// One call on the endpoint's call surface that touches its cached responses.
#[derive(Copy, Clone, Debug, Eq, PartialEq, Structural)]
pub enum ResponseCacheCall {
    /// Get the capabilities, from the cache unless they were fetched that many seconds ago or
    /// longer.
    GetCapabilities { age_limit_secs: u64 },
    /// Get the version, from the cache unless it was fetched that many seconds ago or longer.
    GetVersion { age_limit_secs: u64 },
    /// Forget the cached capabilities.
    ClearCapabilities,
    /// Forget the cached version.
    ClearVersion,
}

/// The calls that carry out `action`, in order, where `capabilities_fetched` says whether
/// getting the capabilities succeeded. The version is asked for only after the capabilities
/// were had: were they not, asking for the version would fail in the same way.
pub open spec fn calls_for(action: ResponseCacheAction, capabilities_fetched: bool) -> Seq<
    ResponseCacheCall,
> {
    match action {
        ResponseCacheAction::Nothing => seq![],
        ResponseCacheAction::Update => if capabilities_fetched {
            seq![
                ResponseCacheCall::GetCapabilities { age_limit_secs: CACHED_RESPONSE_AGE_LIMIT_SECS },
                ResponseCacheCall::GetVersion { age_limit_secs: CACHED_RESPONSE_AGE_LIMIT_SECS },
            ]
        } else {
            seq![
                ResponseCacheCall::GetCapabilities { age_limit_secs: CACHED_RESPONSE_AGE_LIMIT_SECS },
            ]
        },
        ResponseCacheAction::Clear => seq![
            ResponseCacheCall::ClearCapabilities,
            ResponseCacheCall::ClearVersion,
        ],
    }
}

impl ResponseCacheAction {
    /// The call to make at place `step` (from 0) of carrying out this action, or nothing when
    /// the action is done. `capabilities_fetched` says whether getting the capabilities
    /// succeeded; before that call has been made it may be anything.
    pub fn call_at(self, step: usize, capabilities_fetched: bool) -> (call: Option<ResponseCacheCall>)
        ensures
            call == if step < calls_for(self, capabilities_fetched).len() {
                Some(calls_for(self, capabilities_fetched)[step as int])
            } else {
                None
            },
            step == 0 ==> forall|fetched: bool|
                call == if calls_for(self, fetched).len() > 0 {
                    Some(#[trigger] calls_for(self, fetched)[0])
                } else {
                    None
                },
    {
        match self {
            ResponseCacheAction::Nothing => None,
            ResponseCacheAction::Update => if step == 0 {
                Some(
                    ResponseCacheCall::GetCapabilities {
                        age_limit_secs: CACHED_RESPONSE_AGE_LIMIT_SECS,
                    },
                )
            } else if step == 1 && capabilities_fetched {
                Some(ResponseCacheCall::GetVersion { age_limit_secs: CACHED_RESPONSE_AGE_LIMIT_SECS })
            } else {
                None
            },
            ResponseCacheAction::Clear => if step == 0 {
                Some(ResponseCacheCall::ClearCapabilities)
            } else if step == 1 {
                Some(ResponseCacheCall::ClearVersion)
            } else {
                None
            },
        }
    }
}

} // verus!
