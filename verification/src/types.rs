//! Plain data types of the registry.

use vstd::prelude::*;
use vstd::string::*;

verus! {

/// The identifier of an appchain.
pub type AppchainId = String;

/// The state of an appchain.
#[derive(Clone, Copy, Debug, PartialEq, Eq, Structural)]
pub enum AppchainState {
    Registered,
    Auditing,
    InQueue,
    Staging,
    Booting,
    Active,
    Broken,
    Dead,
}

/// Whether the state is one that the anchor of the appchain reports.
pub open spec fn state_managed_by_anchor(state: AppchainState) -> bool {
    match state {
        AppchainState::Staging | AppchainState::Booting | AppchainState::Active
        | AppchainState::Broken => true,
        _ => false,
    }
}

/// The name under which a state is shown.
pub open spec fn state_name(state: AppchainState) -> Seq<char> {
    match state {
        AppchainState::Registered => "registered"@,
        AppchainState::Auditing => "auditing"@,
        AppchainState::InQueue => "inQueue"@,
        AppchainState::Staging => "staging"@,
        AppchainState::Booting => "booting"@,
        AppchainState::Active => "active"@,
        AppchainState::Broken => "broken"@,
        AppchainState::Dead => "dead"@,
    }
}

impl AppchainState {
    /// Get whether the state is managed by appchain anchor
    pub fn is_managed_by_anchor(&self) -> (r: bool)
        ensures
            r == state_managed_by_anchor(*self),
    {
        match self {
            AppchainState::Registered => false,
            AppchainState::Auditing => false,
            AppchainState::InQueue => false,
            AppchainState::Staging => true,
            AppchainState::Booting => true,
            AppchainState::Active => true,
            AppchainState::Broken => true,
            AppchainState::Dead => false,
        }
    }

    /// The name under which the state is shown.
    pub fn to_string(&self) -> (r: String)
        ensures
            r@ == state_name(*self),
    {
        match self {
            AppchainState::Registered => String::from_str("registered"),
            AppchainState::Auditing => String::from_str("auditing"),
            AppchainState::InQueue => String::from_str("inQueue"),
            AppchainState::Staging => String::from_str("staging"),
            AppchainState::Booting => String::from_str("booting"),
            AppchainState::Active => String::from_str("active"),
            AppchainState::Broken => String::from_str("broken"),
            AppchainState::Dead => String::from_str("dead"),
        }
    }
}

/// The state of an appchain as an appchain manager keeps it.
pub struct AppchainManager {
    pub appchain_id: AppchainId,
    pub appchain_anchor: String,
    pub appchain_owner: String,
    pub initial_deposit: u128,
    pub appchain_state: AppchainState,
}

impl AppchainManager {
    /// Return a new instance with the given fields.
    pub fn new(
        appchain_id: AppchainId,
        appchain_anchor: String,
        appchain_owner: String,
        initial_deposit: u128,
        appchain_state: AppchainState,
    ) -> (r: Self)
        ensures
            r.appchain_id@ == appchain_id@,
            r.appchain_anchor@ == appchain_anchor@,
            r.appchain_owner@ == appchain_owner@,
            r.initial_deposit == initial_deposit,
            r.appchain_state == appchain_state,
    {
        AppchainManager { appchain_id, appchain_anchor, appchain_owner, initial_deposit, appchain_state }
    }
}

} // verus!
