//! The owner of the registry, the owners of appchains, their anchors, and calls
//! into anchor contracts.

use vstd::prelude::*;
use vstd::string::*;

use crate::accounts::{is_valid_account_id, sub_account_id, sub_account_text, valid_account_id};
use crate::appchain_basedata::AppchainBasedataView;
use crate::interfaces::{AppchainAnchorCallback, AppchainOwnerActions};
use crate::metadata::{AppchainMetadataView, CustomMetadata};
use crate::registry::{
    appchain_index, appchain_of, appchain_state_check, check, either, has_appchain,
    lemma_replace_keeps_wf, outcome, with_appchain_at, AppchainRegistry, CallContext,
    RegistryAction, RegistryError, RegistryView, T_GAS_FOR_CALLING_ANCHOR_FUNCTION,
};
use crate::types::{state_managed_by_anchor, AppchainId, AppchainState};

verus! {

/// The refusal of a request of an appchain's owner: the appchain is not found or
/// the caller does not own it.
pub open spec fn appchain_owner_error(v: RegistryView, caller: Seq<char>, id: Seq<char>) -> Option<
    RegistryError,
> {
    either(
        check(has_appchain(v, id), RegistryError::AppchainNotFound),
        check(caller == appchain_of(v, id).appchain_owner, RegistryError::NotAppchainOwner),
    )
}

/// The registry with the appchain `id` changed to `b`.
pub open spec fn with_appchain(v: RegistryView, id: Seq<char>, b: AppchainBasedataView) -> RegistryView {
    with_appchain_at(v, appchain_index(v, id), b)
}

/// The refusal of a call of an anchor function.
pub open spec fn call_anchor_error(v: RegistryView, caller: Seq<char>, current_account: Seq<char>, id: Seq<char>) -> Option<
    RegistryError,
> {
    either(
        check(v.registry_roles.octopus_council is Some, RegistryError::OctopusCouncilNotSet),
        either(
            check(
                v.registry_roles.octopus_council == Some(caller),
                RegistryError::NotOctopusCouncil,
            ),
            either(
                appchain_state_check(v, id, set![AppchainState::Booting, AppchainState::Active]),
                check(
                    valid_account_id(sub_account_text(id, current_account)),
                    RegistryError::InvalidSubAccountId,
                ),
            ),
        ),
    )
}

/// The refusal of a state reported by an anchor.
pub open spec fn sync_error(v: RegistryView, caller: Seq<char>, id: Seq<char>, state: AppchainState) -> Option<
    RegistryError,
> {
    either(
        check(has_appchain(v, id), RegistryError::AppchainNotFound),
        either(
            check(appchain_of(v, id).appchain_anchor is Some, RegistryError::AnchorNotSet),
            either(
                check(appchain_of(v, id).appchain_anchor == Some(caller), RegistryError::NotAppchainAnchor),
                check(state_managed_by_anchor(state), RegistryError::InvalidStateToSync),
            ),
        ),
    )
}

impl AppchainRegistry {
    /// The owner of the registry.
    pub fn get_owner(&self) -> (r: String)
        ensures
            r@ == self@.owner,
    {
        self.owner.clone()
    }

    /// Hands the registry to another owner.
    pub fn set_owner(&mut self, ctx: &CallContext, owner: String) -> (r: Result<(), RegistryError>)
        requires
            old(self).wf(),
        ensures
            final(self).wf(),
            r == outcome(
                either(
                    check(ctx.predecessor_account_id@ == old(self)@.owner, RegistryError::NotOwner),
                    check(owner@ != old(self)@.owner, RegistryError::SameAccount),
                ),
            ),
            r is Ok ==> final(self)@ == (RegistryView { owner: owner@, ..old(self)@ }),
            r is Err ==> final(self)@ == old(self)@,
    {
        if ctx.predecessor_account_id != self.owner {
            return Err(RegistryError::NotOwner);
        }
        if owner == self.owner {
            return Err(RegistryError::SameAccount);
        }
        self.owner = owner;
        Ok(())
    }

    /// Calls a function of the anchor contract of a booting or active appchain, on
    /// behalf of the Octopus Council.
    pub fn call_anchor_function(
        &mut self,
        ctx: &CallContext,
        appchain_id: &AppchainId,
        function_name: String,
        args: String,
    ) -> (r: Result<RegistryAction, RegistryError>)
        requires
            old(self).wf(),
        ensures
            final(self)@ == old(self)@,
            final(self).wf(),
            match r {
                Ok(a) => call_anchor_error(
                    old(self)@,
                    ctx.predecessor_account_id@,
                    ctx.current_account_id@,
                    appchain_id@,
                ) is None && (a matches RegistryAction::CallAnchorFunction {
                    account_id,
                    function_name: f,
                    args: bytes,
                    gas_in_tgas,
                } && account_id@ == sub_account_text(appchain_id@, ctx.current_account_id@) && f@
                    == function_name@ && bytes@ == vstd::utf8::encode_utf8(args@) && gas_in_tgas
                    == T_GAS_FOR_CALLING_ANCHOR_FUNCTION),
                Err(e) => call_anchor_error(
                    old(self)@,
                    ctx.predecessor_account_id@,
                    ctx.current_account_id@,
                    appchain_id@,
                ) == Some(e),
            },
    {
        match &self.registry_roles.octopus_council {
            None => {
                return Err(RegistryError::OctopusCouncilNotSet);
            },
            Some(council) => {
                if *council != ctx.predecessor_account_id {
                    return Err(RegistryError::NotOctopusCouncil);
                }
            },
        }
        let i = match self.find_appchain(appchain_id) {
            Some(i) => i,
            None => {
                return Err(RegistryError::AppchainNotFound);
            },
        };
        let state = self.appchains[i].appchain_state;
        assert(state == appchain_of(self@, appchain_id@).appchain_state);
        if state != AppchainState::Booting && state != AppchainState::Active {
            return Err(RegistryError::InvalidAppchainState);
        }
        let account_id = sub_account_id(appchain_id, &ctx.current_account_id);
        if !is_valid_account_id(&account_id) {
            return Err(RegistryError::InvalidSubAccountId);
        }
        Ok(
            RegistryAction::CallAnchorFunction {
                account_id,
                function_name,
                args: args.as_str().as_bytes_vec(),
                gas_in_tgas: T_GAS_FOR_CALLING_ANCHOR_FUNCTION,
            },
        )
    }

    /// Finds the appchain and checks that the caller owns it.
    fn appchain_owner_precheck(&self, ctx: &CallContext, appchain_id: &AppchainId) -> (r: Result<
        usize,
        RegistryError,
    >)
        requires
            self.wf(),
        ensures
            match r {
                Ok(i) => appchain_owner_error(self@, ctx.predecessor_account_id@, appchain_id@)
                    is None && i == appchain_index(self@, appchain_id@) && i < self.appchains@.len(),
                Err(e) => appchain_owner_error(self@, ctx.predecessor_account_id@, appchain_id@)
                    == Some(e),
            },
    {
        let i = match self.find_appchain(appchain_id) {
            Some(i) => i,
            None => {
                return Err(RegistryError::AppchainNotFound);
            },
        };
        assert(self.appchains@[i as int]@ == appchain_of(self@, appchain_id@));
        if ctx.predecessor_account_id != self.appchains[i].appchain_owner {
            return Err(RegistryError::NotAppchainOwner);
        }
        Ok(i)
    }
}

impl AppchainOwnerActions for AppchainRegistry {
    fn transfer_appchain_ownership(
        &mut self,
        ctx: &CallContext,
        appchain_id: &AppchainId,
        new_owner: String,
    ) -> (r: Result<(), RegistryError>)
        ensures
            r == outcome(
                either(
                    appchain_owner_error(old(self)@, ctx.predecessor_account_id@, appchain_id@),
                    check(
                        new_owner@ != appchain_of(old(self)@, appchain_id@).appchain_owner,
                        RegistryError::OwnerNotChanged,
                    ),
                ),
            ),
            r is Ok ==> final(self)@ == with_appchain(
                old(self)@,
                appchain_id@,
                AppchainBasedataView {
                    appchain_owner: new_owner@,
                    ..appchain_of(old(self)@, appchain_id@)
                },
            ),
            r is Err ==> final(self)@ == old(self)@,
    {
        let i = self.appchain_owner_precheck(ctx, appchain_id)?;
        if new_owner == self.appchains[i].appchain_owner {
            return Err(RegistryError::OwnerNotChanged);
        }
        let ghost v = self@;
        let ghost nb = AppchainBasedataView { appchain_owner: new_owner@, ..v.appchains[i as int] };
        self.appchains[i].change_owner(new_owner);
        proof {
            assert(self@.appchains =~= v.appchains.update(i as int, nb));
            lemma_replace_keeps_wf(v, i as int, nb);
        }
        Ok(())
    }

    fn update_appchain_custom_metadata(
        &mut self,
        ctx: &CallContext,
        appchain_id: &AppchainId,
        custom_metadata: &CustomMetadata,
    ) -> (r: Result<(), RegistryError>)
        ensures
            r == outcome(appchain_owner_error(old(self)@, ctx.predecessor_account_id@, appchain_id@)),
            r is Ok ==> final(self)@ == with_appchain(
                old(self)@,
                appchain_id@,
                AppchainBasedataView {
                    appchain_metadata: AppchainMetadataView {
                        custom_metadata: appchain_of(
                            old(self)@,
                            appchain_id@,
                        ).appchain_metadata.custom_metadata.union_prefer_right(custom_metadata@),
                        ..appchain_of(old(self)@, appchain_id@).appchain_metadata
                    },
                    ..appchain_of(old(self)@, appchain_id@)
                },
            ),
            r is Err ==> final(self)@ == old(self)@,
    {
        let i = self.appchain_owner_precheck(ctx, appchain_id)?;
        let ghost v = self@;
        let ghost b = v.appchains[i as int];
        self.appchains[i].appchain_metadata.custom_metadata.merge(custom_metadata);
        proof {
            let nb = AppchainBasedataView {
                appchain_metadata: AppchainMetadataView {
                    custom_metadata: b.appchain_metadata.custom_metadata.union_prefer_right(
                        custom_metadata@,
                    ),
                    ..b.appchain_metadata
                },
                ..b
            };
            assert(self@.appchains =~= v.appchains.update(i as int, nb));
            lemma_replace_keeps_wf(v, i as int, nb);
        }
        Ok(())
    }
}

impl AppchainAnchorCallback for AppchainRegistry {
    fn sync_state_of(
        &mut self,
        ctx: &CallContext,
        appchain_id: &AppchainId,
        appchain_state: AppchainState,
        validator_count: u32,
        total_stake: u128,
    ) -> (r: Result<(), RegistryError>)
        ensures
            r == outcome(sync_error(old(self)@, ctx.predecessor_account_id@, appchain_id@, appchain_state)),
            r is Ok ==> final(self)@ == with_appchain(
                old(self)@,
                appchain_id@,
                AppchainBasedataView {
                    appchain_state,
                    validator_count,
                    total_stake,
                    ..appchain_of(old(self)@, appchain_id@)
                },
            ),
            r is Err ==> final(self)@ == old(self)@,
    {
        let i = match self.find_appchain(appchain_id) {
            Some(i) => i,
            None => {
                return Err(RegistryError::AppchainNotFound);
            },
        };
        assert(self.appchains@[i as int]@ == appchain_of(self@, appchain_id@));
        match &self.appchains[i].appchain_anchor {
            None => {
                return Err(RegistryError::AnchorNotSet);
            },
            Some(anchor) => {
                if *anchor != ctx.predecessor_account_id {
                    return Err(RegistryError::NotAppchainAnchor);
                }
            },
        }
        if !appchain_state.is_managed_by_anchor() {
            return Err(RegistryError::InvalidStateToSync);
        }
        let ghost v = self@;
        let ghost nb = AppchainBasedataView {
            appchain_state,
            validator_count,
            total_stake,
            ..v.appchains[i as int]
        };
        self.appchains[i].set_state(appchain_state);
        self.appchains[i].sync_staking_status(validator_count, total_stake);
        proof {
            assert(self@.appchains =~= v.appchains.update(i as int, nb));
            lemma_replace_keeps_wf(v, i as int, nb);
        }
        Ok(())
    }
}

} // verus!
