//! The roles of the registry and its settings.

use vstd::prelude::*;

use crate::interfaces::RegistrySettingsManager;
use crate::registry::{
    check, either, outcome, roles_include, AppchainRegistry, CallContext, RegistryError,
    RegistryRolesView, RegistrySettings, RegistryView,
};
use crate::sudo::owner_error;

verus! {

/// The shortest counting interval that can be set, in seconds.
pub const MIN_COUNTING_INTERVAL_IN_SECONDS: u64 = 3600;

/// A refusal unless the account holds no role and does not own the registry.
pub open spec fn new_role_holder_error(v: RegistryView, account: Seq<char>) -> Option<RegistryError> {
    check(
        !roles_include(v.registry_roles, account) && account != v.owner,
        RegistryError::AccountHasRole,
    )
}

/// The refusal of a change of a role that its holder or the owner may make.
pub open spec fn role_change_error(
    v: RegistryView,
    caller: Seq<char>,
    holder: Seq<char>,
    account: Seq<char>,
) -> Option<RegistryError> {
    either(
        check(caller == holder || caller == v.owner, RegistryError::NotRoleHolderOrOwner),
        new_role_holder_error(v, account),
    )
}

/// The registry with other roles.
pub open spec fn with_roles(v: RegistryView, roles: RegistryRolesView) -> RegistryView {
    RegistryView { registry_roles: roles, ..v }
}

/// The registry with other settings.
pub open spec fn with_settings(v: RegistryView, settings: RegistrySettings) -> RegistryView {
    RegistryView { registry_settings: settings, ..v }
}

/// A refusal unless the caller manages the registry settings.
pub open spec fn settings_manager_error(v: RegistryView, caller: Seq<char>) -> Option<RegistryError> {
    check(
        caller == v.registry_roles.registry_settings_manager,
        RegistryError::NotRegistrySettingsManager,
    )
}

impl AppchainRegistry {
    /// Checks that the account holds no role and does not own the registry.
    fn assert_account_has_no_role(&self, account: &String) -> (r: Result<(), RegistryError>)
        ensures
            r == outcome(new_role_holder_error(self@, account@)),
    {
        if self.registry_roles.has_role(account) || *account == self.owner {
            return Err(RegistryError::AccountHasRole);
        }
        Ok(())
    }

    /// Hands the role of appchain lifecycle manager to an account without a role.
    pub fn change_appchain_lifecycle_manager(&mut self, ctx: &CallContext, account: String) -> (r:
        Result<(), RegistryError>)
        requires
            old(self).wf(),
        ensures
            final(self).wf(),
            r == outcome(
                role_change_error(
                    old(self)@,
                    ctx.predecessor_account_id@,
                    old(self)@.registry_roles.appchain_lifecycle_manager,
                    account@,
                ),
            ),
            r is Ok ==> final(self)@ == with_roles(
                old(self)@,
                RegistryRolesView { appchain_lifecycle_manager: account@, ..old(self)@.registry_roles },
            ),
            r is Err ==> final(self)@ == old(self)@,
    {
        let caller = &ctx.predecessor_account_id;
        if *caller != self.registry_roles.appchain_lifecycle_manager && *caller != self.owner {
            return Err(RegistryError::NotRoleHolderOrOwner);
        }
        self.assert_account_has_no_role(&account)?;
        self.registry_roles.appchain_lifecycle_manager = account;
        Ok(())
    }

    /// Hands the role of registry settings manager to an account without a role.
    pub fn change_registry_settings_manager(&mut self, ctx: &CallContext, account: String) -> (r:
        Result<(), RegistryError>)
        requires
            old(self).wf(),
        ensures
            final(self).wf(),
            r == outcome(
                role_change_error(
                    old(self)@,
                    ctx.predecessor_account_id@,
                    old(self)@.registry_roles.registry_settings_manager,
                    account@,
                ),
            ),
            r is Ok ==> final(self)@ == with_roles(
                old(self)@,
                RegistryRolesView { registry_settings_manager: account@, ..old(self)@.registry_roles },
            ),
            r is Err ==> final(self)@ == old(self)@,
    {
        let caller = &ctx.predecessor_account_id;
        if *caller != self.registry_roles.registry_settings_manager && *caller != self.owner {
            return Err(RegistryError::NotRoleHolderOrOwner);
        }
        self.assert_account_has_no_role(&account)?;
        self.registry_roles.registry_settings_manager = account;
        Ok(())
    }

    /// The owner hands the role of operator of counting voting score to an account
    /// without a role.
    pub fn change_operator_of_counting_voting_score(&mut self, ctx: &CallContext, account: String) -> (r:
        Result<(), RegistryError>)
        requires
            old(self).wf(),
        ensures
            final(self).wf(),
            r == outcome(
                either(
                    owner_error(old(self)@, ctx.predecessor_account_id@),
                    new_role_holder_error(old(self)@, account@),
                ),
            ),
            r is Ok ==> final(self)@ == with_roles(
                old(self)@,
                RegistryRolesView {
                    operator_of_counting_voting_score: account@,
                    ..old(self)@.registry_roles
                },
            ),
            r is Err ==> final(self)@ == old(self)@,
    {
        self.assert_owner(ctx)?;
        self.assert_account_has_no_role(&account)?;
        self.registry_roles.operator_of_counting_voting_score = account;
        Ok(())
    }

    /// The owner sets the account of the Octopus Council to an account without a
    /// role.
    pub fn change_octopus_council(&mut self, ctx: &CallContext, account: String) -> (r: Result<
        (),
        RegistryError,
    >)
        requires
            old(self).wf(),
        ensures
            final(self).wf(),
            r == outcome(
                either(
                    owner_error(old(self)@, ctx.predecessor_account_id@),
                    new_role_holder_error(old(self)@, account@),
                ),
            ),
            r is Ok ==> final(self)@ == with_roles(
                old(self)@,
                RegistryRolesView { octopus_council: Some(account@), ..old(self)@.registry_roles },
            ),
            r is Err ==> final(self)@ == old(self)@,
    {
        self.assert_owner(ctx)?;
        self.assert_account_has_no_role(&account)?;
        self.registry_roles.octopus_council = Some(account);
        Ok(())
    }

    /// Checks that the caller manages the registry settings.
    fn assert_registry_settings_manager(&self, ctx: &CallContext) -> (r: Result<(), RegistryError>)
        ensures
            r == outcome(settings_manager_error(self@, ctx.predecessor_account_id@)),
    {
        if ctx.predecessor_account_id != self.registry_roles.registry_settings_manager {
            return Err(RegistryError::NotRegistrySettingsManager);
        }
        Ok(())
    }
}

impl RegistrySettingsManager for AppchainRegistry {
    fn change_minimum_register_deposit(&mut self, ctx: &CallContext, value: u128) -> (r: Result<
        (),
        RegistryError,
    >)
        ensures
            r == outcome(
                either(
                    settings_manager_error(old(self)@, ctx.predecessor_account_id@),
                    check(value > 0, RegistryError::ZeroMinimumRegisterDeposit),
                ),
            ),
            r is Ok ==> final(self)@ == with_settings(
                old(self)@,
                RegistrySettings { minimum_register_deposit: value, ..old(self)@.registry_settings },
            ),
            r is Err ==> final(self)@ == old(self)@,
    {
        self.assert_registry_settings_manager(ctx)?;
        if value == 0 {
            return Err(RegistryError::ZeroMinimumRegisterDeposit);
        }
        self.registry_settings.minimum_register_deposit = value;
        Ok(())
    }

    fn change_voting_result_reduction_percent(&mut self, ctx: &CallContext, value: u64) -> (r:
        Result<(), RegistryError>)
        ensures
            r == outcome(
                either(
                    settings_manager_error(old(self)@, ctx.predecessor_account_id@),
                    check(value <= 100, RegistryError::InvalidPercent),
                ),
            ),
            r is Ok ==> final(self)@ == with_settings(
                old(self)@,
                RegistrySettings {
                    voting_result_reduction_percent: value as u16,
                    ..old(self)@.registry_settings
                },
            ),
            r is Err ==> final(self)@ == old(self)@,
    {
        self.assert_registry_settings_manager(ctx)?;
        if value > 100 {
            return Err(RegistryError::InvalidPercent);
        }
        self.registry_settings.voting_result_reduction_percent = value as u16;
        Ok(())
    }

    fn change_counting_interval_in_seconds(&mut self, ctx: &CallContext, value: u64) -> (r:
        Result<(), RegistryError>)
        ensures
            r == outcome(
                either(
                    settings_manager_error(old(self)@, ctx.predecessor_account_id@),
                    check(value > MIN_COUNTING_INTERVAL_IN_SECONDS, RegistryError::IntervalTooShort),
                ),
            ),
            r is Ok ==> final(self)@ == with_settings(
                old(self)@,
                RegistrySettings { counting_interval_in_seconds: value, ..old(self)@.registry_settings },
            ),
            r is Err ==> final(self)@ == old(self)@,
    {
        self.assert_registry_settings_manager(ctx)?;
        if value <= MIN_COUNTING_INTERVAL_IN_SECONDS {
            return Err(RegistryError::IntervalTooShort);
        }
        self.registry_settings.counting_interval_in_seconds = value;
        Ok(())
    }

    fn change_latest_appchain_chain_id(&mut self, ctx: &CallContext, value: u32) -> (r: Result<
        (),
        RegistryError,
    >)
        ensures
            r == outcome(settings_manager_error(old(self)@, ctx.predecessor_account_id@)),
            r is Ok ==> final(self)@ == with_settings(
                old(self)@,
                RegistrySettings { latest_appchain_chain_id: value, ..old(self)@.registry_settings },
            ),
            r is Err ==> final(self)@ == old(self)@,
    {
        self.assert_registry_settings_manager(ctx)?;
        self.registry_settings.latest_appchain_chain_id = value;
        Ok(())
    }
}

} // verus!
