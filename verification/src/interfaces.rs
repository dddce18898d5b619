//! The requests that the registry answers, grouped by who makes them.

use vstd::prelude::*;

use crate::appchain_basedata::AppchainStatus;
use crate::metadata::CustomMetadata;
use crate::registry::{CallContext, RegistryAction, RegistryError, RegistryRoles, RegistrySettings};
use crate::types::{AppchainId, AppchainState};
use crate::lifecycle::AppchainMetadataUpdate;

verus! {

/// A registry state that requests start from and end in.
pub trait RegistryState {
    /// The invariant of the state.
    spec fn well_formed(&self) -> bool;
}

/// The callback interface for appchain anchor
pub trait AppchainAnchorCallback: RegistryState {
    /// Sync state of an appchain to registry
    fn sync_state_of(
        &mut self,
        ctx: &CallContext,
        appchain_id: &AppchainId,
        appchain_state: AppchainState,
        validator_count: u32,
        total_stake: u128,
    ) -> (r: Result<(), RegistryError>)
        requires
            old(self).well_formed(),
        ensures
            final(self).well_formed(),
    ;
}

/// The actions which the owner of an appchain can perform
pub trait AppchainOwnerActions: RegistryState {
    /// Transfer ownership of an appchain to another account
    fn transfer_appchain_ownership(
        &mut self,
        ctx: &CallContext,
        appchain_id: &AppchainId,
        new_owner: String,
    ) -> (r: Result<(), RegistryError>)
        requires
            old(self).well_formed(),
        ensures
            final(self).well_formed(),
    ;

    /// Update custom metadata of an appchain
    fn update_appchain_custom_metadata(
        &mut self,
        ctx: &CallContext,
        appchain_id: &AppchainId,
        custom_metadata: &CustomMetadata,
    ) -> (r: Result<(), RegistryError>)
        requires
            old(self).well_formed(),
        ensures
            final(self).well_formed(),
    ;
}

/// The actions of the appchain lifecycle manager.
pub trait AppchainLifecycleManager: RegistryState {
    /// Update metadata of an appchain
    fn update_appchain_metadata(
        &mut self,
        ctx: &CallContext,
        appchain_id: &AppchainId,
        update: AppchainMetadataUpdate,
    ) -> (r: Result<(), RegistryError>)
        requires
            old(self).well_formed(),
        ensures
            final(self).well_formed(),
    ;

    /// Start auditing of an appchain
    fn start_auditing_appchain(&mut self, ctx: &CallContext, appchain_id: &AppchainId) -> (r:
        Result<(), RegistryError>)
        requires
            old(self).well_formed(),
        ensures
            final(self).well_formed(),
    ;

    /// Pass auditing of an appchain
    fn pass_auditing_appchain(&mut self, ctx: &CallContext, appchain_id: &AppchainId) -> (r:
        Result<(), RegistryError>)
        requires
            old(self).well_formed(),
        ensures
            final(self).well_formed(),
    ;

    /// Reject an appchain
    fn reject_appchain(&mut self, ctx: &CallContext, appchain_id: &AppchainId) -> (r: Result<
        (),
        RegistryError,
    >)
        requires
            old(self).well_formed(),
        ensures
            final(self).well_formed(),
    ;

    /// Conclude voting score of appchains
    fn conclude_voting_score(&mut self, ctx: &CallContext) -> (r: Result<RegistryAction, RegistryError>)
        requires
            old(self).well_formed(),
        ensures
            final(self).well_formed(),
    ;

    /// Remove an appchain from registry
    fn remove_appchain(&mut self, ctx: &CallContext, appchain_id: &AppchainId) -> (r: Result<
        (),
        RegistryError,
    >)
        requires
            old(self).well_formed(),
        ensures
            final(self).well_formed(),
    ;
}

/// The actions of the registry settings manager.
pub trait RegistrySettingsManager: RegistryState {
    /// Change the value of minimum register deposit
    fn change_minimum_register_deposit(&mut self, ctx: &CallContext, value: u128) -> (r: Result<
        (),
        RegistryError,
    >)
        requires
            old(self).well_formed(),
        ensures
            final(self).well_formed(),
    ;

    /// Change the value of reduction percent for voting result of all appchains still in queue
    fn change_voting_result_reduction_percent(&mut self, ctx: &CallContext, value: u64) -> (r:
        Result<(), RegistryError>)
        requires
            old(self).well_formed(),
        ensures
            final(self).well_formed(),
    ;

    /// Change the interval for counting voting score of appchains
    fn change_counting_interval_in_seconds(&mut self, ctx: &CallContext, value: u64) -> (r:
        Result<(), RegistryError>)
        requires
            old(self).well_formed(),
        ensures
            final(self).well_formed(),
    ;

    /// Change the latest chain id given to an appchain
    fn change_latest_appchain_chain_id(&mut self, ctx: &CallContext, value: u32) -> (r: Result<
        (),
        RegistryError,
    >)
        requires
            old(self).well_formed(),
        ensures
            final(self).well_formed(),
    ;
}

/// The interface for querying status of appchain registry
pub trait RegistryStatus: RegistryState {
    /// Get the public key of current owner
    fn get_owner_pk(&self) -> String
        requires
            self.well_formed(),
    ;

    /// Get account id of OCT token
    fn get_oct_token(&self) -> String;

    /// Get registry settings
    fn get_registry_settings(&self) -> RegistrySettings;

    /// Get registry roles
    fn get_registry_roles(&self) -> RegistryRoles;

    /// Get total stake of all appchains
    fn get_total_stake(&self) -> u128;

    /// Get appchain ids
    fn get_appchain_ids(&self) -> Vec<String>;

    /// Get appchains whose state is equal to the given AppchainState
    ///
    /// If param `appchain_state` is `Option::None`, return all appchains in registry
    fn get_appchains_with_state_of(&self, appchain_state: Option<AppchainState>) -> Vec<
        AppchainStatus,
    >
        requires
            self.well_formed(),
    ;

    /// Get appchains count whose state is equal to the given AppchainState
    ///
    /// If param `appchain_state` is `Option::None`, return count of all appchains in registry
    fn get_appchains_count_of(&self, appchain_state: Option<AppchainState>) -> u64;

    /// Get status of an appchain
    fn get_appchain_status_of(&self, appchain_id: &AppchainId) -> Option<AppchainStatus>
        requires
            self.well_formed(),
    ;

    /// Get upvote deposit of a given account id for a certain appchain
    fn get_upvote_deposit_for(&self, appchain_id: &AppchainId, account_id: &String) -> u128;

    /// Get downvote deposit of a given account id for a certain appchain
    fn get_downvote_deposit_for(&self, appchain_id: &AppchainId, account_id: &String) -> u128;
}

/// The actions that only the owner of the registry can perform.
pub trait SudoActions: RegistryState {
    /// Set public key of owner.
    fn set_owner_pk(&mut self, ctx: &CallContext, public_key: &String) -> (r: Result<
        (),
        RegistryError,
    >)
        requires
            old(self).well_formed(),
        ensures
            final(self).well_formed(),
    ;

    /// Create subaccount for a specific appchain.
    fn create_anchor_account(&mut self, ctx: &CallContext, appchain_id: &AppchainId) -> (r: Result<
        RegistryAction,
        RegistryError,
    >)
        requires
            old(self).well_formed(),
        ensures
            final(self).well_formed(),
    ;

    /// Force change state of an appchain
    fn force_change_appchain_state(
        &mut self,
        ctx: &CallContext,
        appchain_id: &AppchainId,
        state: AppchainState,
    ) -> (r: Result<(), RegistryError>)
        requires
            old(self).well_formed(),
        ensures
            final(self).well_formed(),
    ;

    /// Pause asset transfer in this contract.
    fn pause_asset_transfer(&mut self, ctx: &CallContext) -> (r: Result<(), RegistryError>)
        requires
            old(self).well_formed(),
        ensures
            final(self).well_formed(),
    ;

    /// Resume asset transfer in this contract.
    fn resume_asset_transfer(&mut self, ctx: &CallContext) -> (r: Result<(), RegistryError>)
        requires
            old(self).well_formed(),
        ensures
            final(self).well_formed(),
    ;

    /// Set the EVM chain id of an appchain.
    fn set_evm_chain_id_of_appchain(
        &mut self,
        ctx: &CallContext,
        appchain_id: &AppchainId,
        evm_chain_id: u64,
    ) -> (r: Result<(), RegistryError>)
        requires
            old(self).well_formed(),
        ensures
            final(self).well_formed(),
    ;

    /// Remove a dead appchain whatever deposits it still has.
    fn force_remove_appchain(&mut self, ctx: &CallContext, appchain_id: &AppchainId) -> (r: Result<
        (),
        RegistryError,
    >)
        requires
            old(self).well_formed(),
        ensures
            final(self).well_formed(),
    ;
}

/// The actions which the voter can perform
pub trait VoterActions: RegistryState {
    /// Withdraw a certain amount of upvote deposit for an appchain
    fn withdraw_upvote_deposit_of(&mut self, ctx: &CallContext, appchain_id: &AppchainId, amount: u128) -> (r:
        Result<RegistryAction, RegistryError>)
        requires
            old(self).well_formed(),
        ensures
            final(self).well_formed(),
    ;

    /// Withdraw a certain amount of downvote deposit for an appchain
    fn withdraw_downvote_deposit_of(
        &mut self,
        ctx: &CallContext,
        appchain_id: &AppchainId,
        amount: u128,
    ) -> (r: Result<RegistryAction, RegistryError>)
        requires
            old(self).well_formed(),
        ensures
            final(self).well_formed(),
    ;
}

impl RegistryState for crate::registry::AppchainRegistry {
    open spec fn well_formed(&self) -> bool {
        self.wf()
    }
}

} // verus!
