//! The actions that only the owner of the registry can perform.

use vstd::prelude::*;

use crate::accounts::{
    is_valid_account_id, parse_public_key, parsed_public_key, sub_account_id, sub_account_text,
    valid_account_id,
};
use crate::appchain_basedata::AppchainBasedataView;
use crate::interfaces::SudoActions;
use crate::lifecycle::{creates_anchor_account, without_appchain};
use crate::ownership::with_appchain;
use crate::registry::{
    appchain_of, appchain_state_check, check, copy_bytes, either, has_appchain,
    lemma_replace_keeps_wf, outcome, with_appchain_state, AppchainRegistry, CallContext,
    RegistryAction, RegistryError, RegistryView, APPCHAIN_ANCHOR_INIT_BALANCE,
};
use crate::types::{AppchainId, AppchainState};

verus! {

/// A refusal unless the caller owns the registry.
pub open spec fn owner_error(v: RegistryView, caller: Seq<char>) -> Option<RegistryError> {
    check(caller == v.owner, RegistryError::NotOwner)
}

impl AppchainRegistry {
    /// Checks that the caller owns the registry.
    pub fn assert_owner(&self, ctx: &CallContext) -> (r: Result<(), RegistryError>)
        ensures
            r == outcome(owner_error(self@, ctx.predecessor_account_id@)),
    {
        if ctx.predecessor_account_id != self.owner {
            return Err(RegistryError::NotOwner);
        }
        Ok(())
    }
}

impl SudoActions for AppchainRegistry {
    fn set_owner_pk(&mut self, ctx: &CallContext, public_key: &String) -> (r: Result<
        (),
        RegistryError,
    >)
        ensures
            r == outcome(
                either(
                    owner_error(old(self)@, ctx.predecessor_account_id@),
                    check(parsed_public_key(public_key@) is Some, RegistryError::InvalidPublicKey),
                ),
            ),
            r is Ok ==> final(self)@ == (RegistryView {
                owner_pk: parsed_public_key(public_key@)->0,
                ..old(self)@
            }),
            r is Err ==> final(self)@ == old(self)@,
    {
        self.assert_owner(ctx)?;
        match parse_public_key(public_key) {
            Some(key) => {
                self.owner_pk = key;
                Ok(())
            },
            None => Err(RegistryError::InvalidPublicKey),
        }
    }

    fn create_anchor_account(&mut self, ctx: &CallContext, appchain_id: &AppchainId) -> (r: Result<
        RegistryAction,
        RegistryError,
    >)
        ensures
            final(self)@ == old(self)@,
            match r {
                Ok(a) => owner_error(old(self)@, ctx.predecessor_account_id@) is None
                    && valid_account_id(sub_account_text(appchain_id@, ctx.current_account_id@))
                    && creates_anchor_account(
                    a,
                    sub_account_text(appchain_id@, ctx.current_account_id@),
                    old(self)@.owner_pk,
                ),
                Err(e) => either(
                    owner_error(old(self)@, ctx.predecessor_account_id@),
                    check(
                        valid_account_id(sub_account_text(appchain_id@, ctx.current_account_id@)),
                        RegistryError::InvalidSubAccountId,
                    ),
                ) == Some(e),
            },
    {
        self.assert_owner(ctx)?;
        let account_id = sub_account_id(appchain_id, &ctx.current_account_id);
        if !is_valid_account_id(&account_id) {
            return Err(RegistryError::InvalidSubAccountId);
        }
        Ok(
            RegistryAction::CreateAnchorAccount {
                account_id,
                initial_balance: APPCHAIN_ANCHOR_INIT_BALANCE,
                public_key: copy_bytes(&self.owner_pk),
            },
        )
    }

    fn force_change_appchain_state(
        &mut self,
        ctx: &CallContext,
        appchain_id: &AppchainId,
        state: AppchainState,
    ) -> (r: Result<(), RegistryError>)
        ensures
            r == outcome(
                either(
                    owner_error(old(self)@, ctx.predecessor_account_id@),
                    either(
                        check(has_appchain(old(self)@, appchain_id@), RegistryError::AppchainNotFound),
                        check(
                            appchain_of(old(self)@, appchain_id@).appchain_state != state,
                            RegistryError::AlreadyInState,
                        ),
                    ),
                ),
            ),
            r is Ok ==> final(self)@ == with_appchain_state(old(self)@, appchain_id@, state),
            r is Err ==> final(self)@ == old(self)@,
    {
        self.assert_owner(ctx)?;
        let i = match self.find_appchain(appchain_id) {
            Some(i) => i,
            None => {
                return Err(RegistryError::AppchainNotFound);
            },
        };
        assert(self.appchains@[i as int]@ == appchain_of(self@, appchain_id@));
        if self.appchains[i].appchain_state == state {
            return Err(RegistryError::AlreadyInState);
        }
        self.set_appchain_state_at(i, state);
        Ok(())
    }

    fn pause_asset_transfer(&mut self, ctx: &CallContext) -> (r: Result<(), RegistryError>)
        ensures
            r == outcome(owner_error(old(self)@, ctx.predecessor_account_id@)),
            r is Ok ==> final(self)@ == (RegistryView { asset_transfer_is_paused: true, ..old(self)@ }),
            r is Err ==> final(self)@ == old(self)@,
    {
        self.assert_owner(ctx)?;
        self.asset_transfer_is_paused = true;
        Ok(())
    }

    fn resume_asset_transfer(&mut self, ctx: &CallContext) -> (r: Result<(), RegistryError>)
        ensures
            r == outcome(owner_error(old(self)@, ctx.predecessor_account_id@)),
            r is Ok ==> final(self)@ == (RegistryView { asset_transfer_is_paused: false, ..old(self)@ }),
            r is Err ==> final(self)@ == old(self)@,
    {
        self.assert_owner(ctx)?;
        self.asset_transfer_is_paused = false;
        Ok(())
    }

    fn set_evm_chain_id_of_appchain(
        &mut self,
        ctx: &CallContext,
        appchain_id: &AppchainId,
        evm_chain_id: u64,
    ) -> (r: Result<(), RegistryError>)
        ensures
            r == outcome(
                either(
                    owner_error(old(self)@, ctx.predecessor_account_id@),
                    check(has_appchain(old(self)@, appchain_id@), RegistryError::AppchainNotFound),
                ),
            ),
            r is Ok ==> final(self)@ == with_appchain(
                old(self)@,
                appchain_id@,
                AppchainBasedataView {
                    evm_chain_id: Some(evm_chain_id),
                    ..appchain_of(old(self)@, appchain_id@)
                },
            ),
            r is Err ==> final(self)@ == old(self)@,
    {
        self.assert_owner(ctx)?;
        let i = match self.find_appchain(appchain_id) {
            Some(i) => i,
            None => {
                return Err(RegistryError::AppchainNotFound);
            },
        };
        let ghost v = self@;
        let ghost nb = AppchainBasedataView { evm_chain_id: Some(evm_chain_id), ..v.appchains[i as int] };
        self.appchains[i].evm_chain_id = Some(evm_chain_id);
        proof {
            assert(self@.appchains =~= v.appchains.update(i as int, nb));
            lemma_replace_keeps_wf(v, i as int, nb);
        }
        Ok(())
    }

    fn force_remove_appchain(&mut self, ctx: &CallContext, appchain_id: &AppchainId) -> (r: Result<
        (),
        RegistryError,
    >)
        ensures
            r == outcome(
                either(
                    owner_error(old(self)@, ctx.predecessor_account_id@),
                    appchain_state_check(old(self)@, appchain_id@, set![AppchainState::Dead]),
                ),
            ),
            r is Ok ==> final(self)@ == without_appchain(old(self)@, appchain_id@),
            r is Err ==> final(self)@ == old(self)@,
    {
        self.assert_owner(ctx)?;
        let i = match self.find_appchain(appchain_id) {
            Some(i) => i,
            None => {
                return Err(RegistryError::AppchainNotFound);
            },
        };
        assert(self.appchains@[i as int]@ == appchain_of(self@, appchain_id@));
        if self.appchains[i].appchain_state != AppchainState::Dead {
            return Err(RegistryError::InvalidAppchainState);
        }
        self.remove_appchain_at(i);
        Ok(())
    }
}

} // verus!
