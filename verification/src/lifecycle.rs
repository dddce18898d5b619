//! The lifecycle of appchains, as the appchain lifecycle manager moves them along.

use vstd::prelude::*;

use crate::accounts::{is_valid_account_id, sub_account_id, sub_account_text, valid_account_id};
use crate::appchain_basedata::{
    checked_reduced_score, reduced_voting_score, AppchainBasedata, AppchainBasedataView,
};
use crate::interfaces::AppchainLifecycleManager;
use crate::metadata::{
    opt_text, AppchainMetadataView, CustomMetadata, FungibleTokenMetadata,
};
use crate::registry::{
    appchain_index, appchain_of, appchain_state_check, check, either, has_appchain, outcome,
    registry_wf, swap_removed, with_appchain_at, with_appchain_state, AppchainRegistry, CallContext,
    MetadataField, RegistryAction, RegistryError, RegistryView, APPCHAIN_ANCHOR_INIT_BALANCE,
};
use crate::types::{AppchainId, AppchainState};

verus! {

/// The fields of appchain metadata to change; a field left `None` stays as it is.
pub struct AppchainMetadataUpdate {
    pub description: Option<String>,
    pub evm_chain_id: Option<u64>,
    pub website_url: Option<String>,
    pub function_spec_url: Option<String>,
    pub github_address: Option<String>,
    pub github_release: Option<String>,
    pub contact_email: Option<String>,
    pub premined_wrapped_appchain_token_beneficiary: Option<String>,
    pub premined_wrapped_appchain_token: Option<u128>,
    pub initial_supply_of_wrapped_appchain_token: Option<u128>,
    pub ido_amount_of_wrapped_appchain_token: Option<u128>,
    pub initial_era_reward: Option<u128>,
    pub fungible_token_metadata: Option<FungibleTokenMetadata>,
    pub custom_metadata: Option<CustomMetadata>,
}

/// A text field given with the value it has.
pub open spec fn text_same(new: Option<String>, current: Seq<char>) -> bool {
    new matches Some(s) && s@ == current
}

/// An amount given with the value it has.
pub open spec fn amount_same(new: Option<u128>, current: u128) -> bool {
    new matches Some(x) && x == current
}

/// The refusal of a metadata update: the first field, in the order of the
/// update's fields, that is given with the value it has (an unset EVM chain id and
/// an unset beneficiary count as `0` and as the empty text), or an initial supply
/// below the premined amount (as the update leaves it).
pub open spec fn metadata_update_error(b: AppchainBasedataView, u: AppchainMetadataUpdate) -> Option<
    RegistryError,
> {
    let md = b.appchain_metadata;
    let premined = match u.premined_wrapped_appchain_token {
        Some(x) => x,
        None => md.premined_wrapped_appchain_token,
    };
    let current_evm = match b.evm_chain_id {
        Some(e) => e,
        None => 0,
    };
    let current_beneficiary = match md.premined_wrapped_appchain_token_beneficiary {
        Some(a) => a,
        None => Seq::empty(),
    };
    if text_same(u.description, md.description) {
        Some(RegistryError::MetadataNotChanged(MetadataField::Description))
    } else if u.evm_chain_id matches Some(e) && e == current_evm {
        Some(RegistryError::MetadataNotChanged(MetadataField::EvmChainId))
    } else if text_same(u.website_url, md.website_url) {
        Some(RegistryError::MetadataNotChanged(MetadataField::WebsiteUrl))
    } else if text_same(u.function_spec_url, md.function_spec_url) {
        Some(RegistryError::MetadataNotChanged(MetadataField::FunctionSpecUrl))
    } else if text_same(u.github_address, md.github_address) {
        Some(RegistryError::MetadataNotChanged(MetadataField::GithubAddress))
    } else if text_same(u.github_release, md.github_release) {
        Some(RegistryError::MetadataNotChanged(MetadataField::GithubRelease))
    } else if text_same(u.contact_email, md.contact_email) {
        Some(RegistryError::MetadataNotChanged(MetadataField::ContactEmail))
    } else if text_same(u.premined_wrapped_appchain_token_beneficiary, current_beneficiary) {
        Some(RegistryError::MetadataNotChanged(MetadataField::PreminedWrappedAppchainTokenBeneficiary))
    } else if amount_same(u.premined_wrapped_appchain_token, md.premined_wrapped_appchain_token) {
        Some(RegistryError::MetadataNotChanged(MetadataField::PreminedWrappedAppchainToken))
    } else if amount_same(
        u.initial_supply_of_wrapped_appchain_token,
        md.initial_supply_of_wrapped_appchain_token,
    ) {
        Some(RegistryError::MetadataNotChanged(MetadataField::InitialSupplyOfWrappedAppchainToken))
    } else if u.initial_supply_of_wrapped_appchain_token matches Some(x) && x < premined {
        Some(RegistryError::InitialSupplyLessThanPremined)
    } else if amount_same(
        u.ido_amount_of_wrapped_appchain_token,
        md.ido_amount_of_wrapped_appchain_token,
    ) {
        Some(RegistryError::MetadataNotChanged(MetadataField::IdoAmountOfWrappedAppchainToken))
    } else if amount_same(u.initial_era_reward, md.initial_era_reward) {
        Some(RegistryError::MetadataNotChanged(MetadataField::InitialEraReward))
    } else {
        None
    }
}

/// A text field as the update leaves it.
pub open spec fn text_after(new: Option<String>, current: Seq<char>) -> Seq<char> {
    match new {
        Some(s) => s@,
        None => current,
    }
}

/// An amount as the update leaves it.
pub open spec fn amount_after(new: Option<u128>, current: u128) -> u128 {
    match new {
        Some(x) => x,
        None => current,
    }
}

/// The appchain with the update applied.
pub open spec fn metadata_updated(b: AppchainBasedataView, u: AppchainMetadataUpdate) -> AppchainBasedataView {
    let md = b.appchain_metadata;
    AppchainBasedataView {
        evm_chain_id: if u.evm_chain_id is Some {
            u.evm_chain_id
        } else {
            b.evm_chain_id
        },
        appchain_metadata: AppchainMetadataView {
            description: text_after(u.description, md.description),
            website_url: text_after(u.website_url, md.website_url),
            function_spec_url: text_after(u.function_spec_url, md.function_spec_url),
            github_address: text_after(u.github_address, md.github_address),
            github_release: text_after(u.github_release, md.github_release),
            commit_id: md.commit_id,
            contact_email: text_after(u.contact_email, md.contact_email),
            premined_wrapped_appchain_token_beneficiary: match u.premined_wrapped_appchain_token_beneficiary {
                Some(a) => Some(a@),
                None => md.premined_wrapped_appchain_token_beneficiary,
            },
            premined_wrapped_appchain_token: amount_after(
                u.premined_wrapped_appchain_token,
                md.premined_wrapped_appchain_token,
            ),
            initial_supply_of_wrapped_appchain_token: amount_after(
                u.initial_supply_of_wrapped_appchain_token,
                md.initial_supply_of_wrapped_appchain_token,
            ),
            ido_amount_of_wrapped_appchain_token: amount_after(
                u.ido_amount_of_wrapped_appchain_token,
                md.ido_amount_of_wrapped_appchain_token,
            ),
            initial_era_reward: amount_after(u.initial_era_reward, md.initial_era_reward),
            fungible_token_metadata: match u.fungible_token_metadata {
                Some(f) => f@,
                None => md.fungible_token_metadata,
            },
            custom_metadata: match u.custom_metadata {
                Some(c) => c@,
                None => md.custom_metadata,
            },
        },
        ..b
    }
}

/// Whether a given text equals the current one.
fn same_text(new: &Option<String>, current: &String) -> (r: bool)
    ensures
        r == text_same(*new, current@),
{
    match new {
        Some(s) => *s == *current,
        None => false,
    }
}

/// Whether a given amount equals the current one.
fn same_amount(new: &Option<u128>, current: u128) -> (r: bool)
    ensures
        r == amount_same(*new, current),
{
    match new {
        Some(x) => *x == current,
        None => false,
    }
}

impl AppchainBasedata {
    /// The refusal of a metadata update, if any.
    pub fn metadata_update_check(&self, u: &AppchainMetadataUpdate) -> (r: Option<RegistryError>)
        ensures
            r == metadata_update_error(self@, *u),
    {
        let md = &self.appchain_metadata;
        let premined = match u.premined_wrapped_appchain_token {
            Some(x) => x,
            None => md.premined_wrapped_appchain_token,
        };
        let current_evm = match self.evm_chain_id {
            Some(e) => e,
            None => 0,
        };
        let empty = String::new();
        let current_beneficiary = match &md.premined_wrapped_appchain_token_beneficiary {
            Some(a) => a,
            None => &empty,
        };
        if same_text(&u.description, &md.description) {
            Some(RegistryError::MetadataNotChanged(MetadataField::Description))
        } else if u.evm_chain_id.is_some() && u.evm_chain_id.unwrap() == current_evm {
            Some(RegistryError::MetadataNotChanged(MetadataField::EvmChainId))
        } else if same_text(&u.website_url, &md.website_url) {
            Some(RegistryError::MetadataNotChanged(MetadataField::WebsiteUrl))
        } else if same_text(&u.function_spec_url, &md.function_spec_url) {
            Some(RegistryError::MetadataNotChanged(MetadataField::FunctionSpecUrl))
        } else if same_text(&u.github_address, &md.github_address) {
            Some(RegistryError::MetadataNotChanged(MetadataField::GithubAddress))
        } else if same_text(&u.github_release, &md.github_release) {
            Some(RegistryError::MetadataNotChanged(MetadataField::GithubRelease))
        } else if same_text(&u.contact_email, &md.contact_email) {
            Some(RegistryError::MetadataNotChanged(MetadataField::ContactEmail))
        } else if same_text(&u.premined_wrapped_appchain_token_beneficiary, current_beneficiary) {
            Some(
                RegistryError::MetadataNotChanged(
                    MetadataField::PreminedWrappedAppchainTokenBeneficiary,
                ),
            )
        } else if same_amount(
            &u.premined_wrapped_appchain_token,
            md.premined_wrapped_appchain_token,
        ) {
            Some(RegistryError::MetadataNotChanged(MetadataField::PreminedWrappedAppchainToken))
        } else if same_amount(
            &u.initial_supply_of_wrapped_appchain_token,
            md.initial_supply_of_wrapped_appchain_token,
        ) {
            Some(
                RegistryError::MetadataNotChanged(
                    MetadataField::InitialSupplyOfWrappedAppchainToken,
                ),
            )
        } else if u.initial_supply_of_wrapped_appchain_token.is_some()
            && u.initial_supply_of_wrapped_appchain_token.unwrap() < premined {
            Some(RegistryError::InitialSupplyLessThanPremined)
        } else if same_amount(
            &u.ido_amount_of_wrapped_appchain_token,
            md.ido_amount_of_wrapped_appchain_token,
        ) {
            Some(
                RegistryError::MetadataNotChanged(MetadataField::IdoAmountOfWrappedAppchainToken),
            )
        } else if same_amount(&u.initial_era_reward, md.initial_era_reward) {
            Some(RegistryError::MetadataNotChanged(MetadataField::InitialEraReward))
        } else {
            None
        }
    }

    /// Applies a metadata update.
    pub fn apply_metadata_update(&mut self, u: AppchainMetadataUpdate)
        ensures
            final(self)@ == metadata_updated(old(self)@, u),
    {
        let AppchainMetadataUpdate {
            description,
            evm_chain_id,
            website_url,
            function_spec_url,
            github_address,
            github_release,
            contact_email,
            premined_wrapped_appchain_token_beneficiary,
            premined_wrapped_appchain_token,
            initial_supply_of_wrapped_appchain_token,
            ido_amount_of_wrapped_appchain_token,
            initial_era_reward,
            fungible_token_metadata,
            custom_metadata,
        } = u;
        let md = &mut self.appchain_metadata;
        set_text(&mut md.description, description);
        set_text(&mut md.website_url, website_url);
        set_text(&mut md.function_spec_url, function_spec_url);
        set_text(&mut md.github_address, github_address);
        set_text(&mut md.github_release, github_release);
        set_text(&mut md.contact_email, contact_email);
        set_opt_text(
            &mut md.premined_wrapped_appchain_token_beneficiary,
            premined_wrapped_appchain_token_beneficiary,
        );
        set_amount(&mut md.premined_wrapped_appchain_token, premined_wrapped_appchain_token);
        set_amount(
            &mut md.initial_supply_of_wrapped_appchain_token,
            initial_supply_of_wrapped_appchain_token,
        );
        set_amount(
            &mut md.ido_amount_of_wrapped_appchain_token,
            ido_amount_of_wrapped_appchain_token,
        );
        set_amount(&mut md.initial_era_reward, initial_era_reward);
        if let Some(v) = fungible_token_metadata {
            md.fungible_token_metadata = v;
        }
        if let Some(v) = custom_metadata {
            md.custom_metadata = v;
        }
        if let Some(e) = evm_chain_id {
            self.evm_chain_id = Some(e);
        }
    }
}

/// Sets a text field where a value is given.
fn set_text(target: &mut String, new: Option<String>)
    ensures
        final(target)@ == text_after(new, old(target)@),
{
    if let Some(v) = new {
        *target = v;
    }
}

/// Sets an optional text field where a value is given.
fn set_opt_text(target: &mut Option<String>, new: Option<String>)
    ensures
        opt_text(*final(target)) == (match new {
            Some(a) => Some(a@),
            None => opt_text(*old(target)),
        }),
{
    if let Some(v) = new {
        *target = Some(v);
    }
}

/// Sets an amount where a value is given.
fn set_amount(target: &mut u128, new: Option<u128>)
    ensures
        *final(target) == amount_after(new, *old(target)),
{
    if let Some(v) = new {
        *target = v;
    }
}

/// The refusal of a request of the lifecycle manager that needs the appchain in
/// one of the given states.
pub open spec fn lifecycle_error(
    v: RegistryView,
    caller: Seq<char>,
    id: Seq<char>,
    allowed: Set<AppchainState>,
) -> Option<RegistryError> {
    either(
        check(
            caller == v.registry_roles.appchain_lifecycle_manager,
            RegistryError::NotAppchainLifecycleManager,
        ),
        appchain_state_check(v, id, allowed),
    )
}

/// The refusal of a removal: as for any lifecycle request, then any deposit left.
pub open spec fn remove_error(v: RegistryView, caller: Seq<char>, id: Seq<char>) -> Option<
    RegistryError,
> {
    either(
        lifecycle_error(v, caller, id, set![AppchainState::Dead]),
        either(
            check(appchain_of(v, id).upvote_deposit == 0, RegistryError::AppchainHasUpvoteDeposit),
            check(
                appchain_of(v, id).downvote_deposit == 0,
                RegistryError::AppchainHasDownvoteDeposit,
            ),
        ),
    )
}

/// The registry without the appchain `id`.
pub open spec fn without_appchain(v: RegistryView, id: Seq<char>) -> RegistryView {
    RegistryView { appchains: swap_removed(v.appchains, appchain_index(v, id)), ..v }
}

/// The refusal of concluding the voting.
pub open spec fn conclude_error(v: RegistryView, caller: Seq<char>, current_account: Seq<char>) -> Option<
    RegistryError,
> {
    either(
        check(
            caller == v.registry_roles.appchain_lifecycle_manager,
            RegistryError::NotAppchainLifecycleManager,
        ),
        either(
            check(v.top_appchain_id_in_queue.len() > 0, RegistryError::NoTopAppchainInQueue),
            either(
                check(
                    valid_account_id(sub_account_text(v.top_appchain_id_in_queue, current_account)),
                    RegistryError::InvalidSubAccountId,
                ),
                either(
                    check(has_appchain(v, v.top_appchain_id_in_queue), RegistryError::AppchainNotFound),
                    check(
                        reductions_fit(v, appchain_index(v, v.top_appchain_id_in_queue)),
                        RegistryError::ArithmeticOverflow,
                    ),
                ),
            ),
        ),
    )
}

/// Every appchain in queue other than the top one can have its score reduced
/// without overflow.
pub open spec fn reductions_fit(v: RegistryView, top: int) -> bool {
    forall|j: int|
        0 <= j < v.appchains.len() && j != top && #[trigger] v.appchains[j].appchain_state
            == AppchainState::InQueue ==> reduced_voting_score(
            v.appchains[j].voting_score,
            v.registry_settings.voting_result_reduction_percent,
        ) is Some
}

/// The appchain at position `j` once the voting is concluded: the top appchain
/// goes staging with its anchor account set; every other appchain in queue has
/// its score reduced by the percent, and one whose score was negative or zero
/// (zero counts) is dead, the others stay in queue.
pub open spec fn concluded_appchain(v: RegistryView, top: int, anchor: Seq<char>, j: int) -> AppchainBasedataView {
    let b = v.appchains[j];
    if j == top {
        AppchainBasedataView {
            appchain_state: AppchainState::Staging,
            appchain_anchor: Some(anchor),
            ..b
        }
    } else if b.appchain_state == AppchainState::InQueue {
        AppchainBasedataView {
            appchain_state: if b.voting_score <= 0 {
                AppchainState::Dead
            } else {
                AppchainState::InQueue
            },
            voting_score: reduced_voting_score(
                b.voting_score,
                v.registry_settings.voting_result_reduction_percent,
            )->0,
            ..b
        }
    } else {
        b
    }
}

/// The registry once the voting is concluded; the top of the queue is cleared.
pub open spec fn concluded(v: RegistryView, current_account: Seq<char>) -> RegistryView {
    let top = appchain_index(v, v.top_appchain_id_in_queue);
    let anchor = sub_account_text(v.top_appchain_id_in_queue, current_account);
    RegistryView {
        appchains: Seq::new(v.appchains.len(), |j: int| concluded_appchain(v, top, anchor, j)),
        top_appchain_id_in_queue: Seq::empty(),
        ..v
    }
}

/// The action creates the account, funds it with the initial balance of an anchor
/// and gives it the key.
pub open spec fn creates_anchor_account(a: RegistryAction, account: Seq<char>, key: Seq<u8>) -> bool {
    a matches RegistryAction::CreateAnchorAccount { account_id, initial_balance, public_key }
        && account_id@ == account && initial_balance == APPCHAIN_ANCHOR_INIT_BALANCE
        && public_key@ == key
}

impl AppchainRegistry {
    /// Checks that the caller is the lifecycle manager and finds the appchain in one
    /// of the allowed states.
    fn lifecycle_precheck(
        &self,
        ctx: &CallContext,
        appchain_id: &AppchainId,
        first: AppchainState,
        second: AppchainState,
        third: AppchainState,
    ) -> (r: Result<usize, RegistryError>)
        requires
            self.wf(),
        ensures
            match r {
                Ok(i) => lifecycle_error(self@, ctx.predecessor_account_id@, appchain_id@, set![first, second, third])
                    is None && i == appchain_index(self@, appchain_id@) && i
                    < self.appchains@.len(),
                Err(e) => lifecycle_error(
                    self@,
                    ctx.predecessor_account_id@,
                    appchain_id@,
                    set![first, second, third],
                ) == Some(e),
            },
    {
        if ctx.predecessor_account_id != self.registry_roles.appchain_lifecycle_manager {
            return Err(RegistryError::NotAppchainLifecycleManager);
        }
        let i = match self.find_appchain(appchain_id) {
            Some(i) => i,
            None => {
                return Err(RegistryError::AppchainNotFound);
            },
        };
        let state = self.appchains[i].appchain_state;
        assert(state == self@.appchains[i as int].appchain_state);
        if state != first && state != second && state != third {
            return Err(RegistryError::InvalidAppchainState);
        }
        Ok(i)
    }
}

impl AppchainLifecycleManager for AppchainRegistry {
    fn update_appchain_metadata(
        &mut self,
        ctx: &CallContext,
        appchain_id: &AppchainId,
        update: AppchainMetadataUpdate,
    ) -> (r: Result<(), RegistryError>)
        ensures
            r == outcome(
                either(
                    check(
                        ctx.predecessor_account_id@ == old(self)@.registry_roles.appchain_lifecycle_manager,
                        RegistryError::NotAppchainLifecycleManager,
                    ),
                    either(
                        check(has_appchain(old(self)@, appchain_id@), RegistryError::AppchainNotFound),
                        metadata_update_error(appchain_of(old(self)@, appchain_id@), update),
                    ),
                ),
            ),
            r is Ok ==> final(self)@ == with_appchain_at(
                old(self)@,
                appchain_index(old(self)@, appchain_id@),
                metadata_updated(appchain_of(old(self)@, appchain_id@), update),
            ),
            r is Err ==> final(self)@ == old(self)@,
    {
        if ctx.predecessor_account_id != self.registry_roles.appchain_lifecycle_manager {
            return Err(RegistryError::NotAppchainLifecycleManager);
        }
        let i = match self.find_appchain(appchain_id) {
            Some(i) => i,
            None => {
                return Err(RegistryError::AppchainNotFound);
            },
        };
        if let Some(e) = self.appchains[i].metadata_update_check(&update) {
            return Err(e);
        }
        let ghost u = update;
        self.appchains[i].apply_metadata_update(update);
        proof {
            let nb = metadata_updated(old(self)@.appchains[i as int], u);
            assert(self@.appchains =~= old(self)@.appchains.update(i as int, nb));
            crate::registry::lemma_replace_keeps_wf(old(self)@, i as int, nb);
        }
        Ok(())
    }

    fn start_auditing_appchain(&mut self, ctx: &CallContext, appchain_id: &AppchainId) -> (r:
        Result<(), RegistryError>)
        ensures
            r == outcome(
                lifecycle_error(
                    old(self)@,
                    ctx.predecessor_account_id@,
                    appchain_id@,
                    set![AppchainState::Registered],
                ),
            ),
            r is Ok ==> final(self)@ == with_appchain_state(
                old(self)@,
                appchain_id@,
                AppchainState::Auditing,
            ),
            r is Err ==> final(self)@ == old(self)@,
    {
        let i = self.lifecycle_precheck(
            ctx,
            appchain_id,
            AppchainState::Registered,
            AppchainState::Registered,
            AppchainState::Registered,
        )?;
        assert(set![AppchainState::Registered, AppchainState::Registered, AppchainState::Registered] =~= set![AppchainState::Registered]);
        self.set_appchain_state_at(i, AppchainState::Auditing);
        Ok(())
    }

    fn pass_auditing_appchain(&mut self, ctx: &CallContext, appchain_id: &AppchainId) -> (r:
        Result<(), RegistryError>)
        ensures
            r == outcome(
                lifecycle_error(
                    old(self)@,
                    ctx.predecessor_account_id@,
                    appchain_id@,
                    set![AppchainState::Auditing],
                ),
            ),
            r is Ok ==> final(self)@ == with_appchain_state(
                old(self)@,
                appchain_id@,
                AppchainState::InQueue,
            ),
            r is Err ==> final(self)@ == old(self)@,
    {
        let i = self.lifecycle_precheck(
            ctx,
            appchain_id,
            AppchainState::Auditing,
            AppchainState::Auditing,
            AppchainState::Auditing,
        )?;
        assert(set![AppchainState::Auditing, AppchainState::Auditing, AppchainState::Auditing] =~= set![AppchainState::Auditing]);
        self.set_appchain_state_at(i, AppchainState::InQueue);
        Ok(())
    }

    fn reject_appchain(&mut self, ctx: &CallContext, appchain_id: &AppchainId) -> (r: Result<
        (),
        RegistryError,
    >)
        ensures
            r == outcome(
                lifecycle_error(
                    old(self)@,
                    ctx.predecessor_account_id@,
                    appchain_id@,
                    set![AppchainState::Registered, AppchainState::Auditing, AppchainState::InQueue],
                ),
            ),
            r is Ok ==> final(self)@ == with_appchain_state(
                old(self)@,
                appchain_id@,
                AppchainState::Dead,
            ),
            r is Err ==> final(self)@ == old(self)@,
    {
        let i = self.lifecycle_precheck(
            ctx,
            appchain_id,
            AppchainState::Registered,
            AppchainState::Auditing,
            AppchainState::InQueue,
        )?;
        self.set_appchain_state_at(i, AppchainState::Dead);
        Ok(())
    }

    fn conclude_voting_score(&mut self, ctx: &CallContext) -> (r: Result<RegistryAction, RegistryError>)
        ensures
            match r {
                Ok(a) => conclude_error(
                    old(self)@,
                    ctx.predecessor_account_id@,
                    ctx.current_account_id@,
                ) is None && final(self)@ == concluded(old(self)@, ctx.current_account_id@)
                    && creates_anchor_account(
                    a,
                    sub_account_text(old(self)@.top_appchain_id_in_queue, ctx.current_account_id@),
                    old(self)@.owner_pk,
                ),
                Err(e) => conclude_error(
                    old(self)@,
                    ctx.predecessor_account_id@,
                    ctx.current_account_id@,
                ) == Some(e) && final(self)@ == old(self)@,
            },
    {
        if ctx.predecessor_account_id != self.registry_roles.appchain_lifecycle_manager {
            return Err(RegistryError::NotAppchainLifecycleManager);
        }
        if self.top_appchain_id_in_queue.as_str().unicode_len() == 0 {
            return Err(RegistryError::NoTopAppchainInQueue);
        }
        let sub_account = sub_account_id(&self.top_appchain_id_in_queue, &ctx.current_account_id);
        if !is_valid_account_id(&sub_account) {
            return Err(RegistryError::InvalidSubAccountId);
        }
        let top = match self.find_appchain(&self.top_appchain_id_in_queue) {
            Some(t) => t,
            None => {
                return Err(RegistryError::AppchainNotFound);
            },
        };
        let ghost v = self@;
        let percent = self.registry_settings.voting_result_reduction_percent;
        let n = self.appchains.len();
        let mut j: usize = 0;
        while j < n
            invariant
                self@ == v,
                registry_wf(v),
                ctx.predecessor_account_id@ == v.registry_roles.appchain_lifecycle_manager,
                v.top_appchain_id_in_queue.len() > 0,
                valid_account_id(sub_account_text(v.top_appchain_id_in_queue, ctx.current_account_id@)),
                has_appchain(v, v.top_appchain_id_in_queue),
                top == appchain_index(v, v.top_appchain_id_in_queue),
                n == v.appchains.len(),
                top < n,
                j <= n,
                percent == v.registry_settings.voting_result_reduction_percent,
                forall|k: int|
                    0 <= k < j && k != top && #[trigger] v.appchains[k].appchain_state
                        == AppchainState::InQueue
                        ==> reduced_voting_score(v.appchains[k].voting_score, percent) is Some,
            decreases n - j,
        {
            let b = &self.appchains[j];
            assert(b@ == v.appchains[j as int]);
            if j != top && b.appchain_state == AppchainState::InQueue {
                if checked_reduced_score(b.voting_score, percent).is_none() {
                    assert(v.appchains[j as int].appchain_state == AppchainState::InQueue);
                    assert(!reductions_fit(v, top as int));
                    return Err(RegistryError::ArithmeticOverflow);
                }
            }
            j = j + 1;
        }
        let ghost anchor = sub_account@;
        self.appchains[top].set_state(AppchainState::Staging);
        self.appchains[top].set_anchor_account(sub_account.clone());
        let mut j: usize = 0;
        while j < n
            invariant
                registry_wf(v),
                n == v.appchains.len(),
                top < n,
                j <= n,
                percent == v.registry_settings.voting_result_reduction_percent,
                percent <= 100,
                reductions_fit(v, top as int),
                self@ == (RegistryView { appchains: self@.appchains, ..v }),
                self@.appchains.len() == n,
                forall|k: int| 0 <= k < j ==> #[trigger] self@.appchains[k] == concluded_appchain(v, top as int, anchor, k),
                forall|k: int| j <= k < n ==> #[trigger] self@.appchains[k] == (if k == top {
                    concluded_appchain(v, top as int, anchor, k)
                } else {
                    v.appchains[k]
                }),
            decreases n - j,
        {
            let ghost before = self.appchains@;
            let ghost before_view = self@.appchains;
            if j != top && self.appchains[j].appchain_state == AppchainState::InQueue {
                assert(self@.appchains[j as int] == v.appchains[j as int]);
                assert(v.appchains[j as int].appchain_state == AppchainState::InQueue);
                let ends = self.appchains[j].voting_score <= 0;
                self.appchains[j].reduce_voting_score_by_percent(percent);
                if ends {
                    self.appchains[j].set_state(AppchainState::Dead);
                }
            } else {
                assert(j == top || self@.appchains[j as int] == v.appchains[j as int]);
            }
            proof {
                assert(self.appchains@ =~= before.update(j as int, self.appchains@[j as int]));
                assert(self@.appchains[j as int] == concluded_appchain(v, top as int, anchor, j as int));
                assert forall|k: int| j < k < n implies #[trigger] self@.appchains[k] == (if k == top {
                    concluded_appchain(v, top as int, anchor, k)
                } else {
                    v.appchains[k]
                }) by {
                    assert(self@.appchains[k] == before_view[k]);
                }
            }
            j = j + 1;
        }
        proof {
            let w = concluded(v, ctx.current_account_id@);
            assert(self@.appchains =~= w.appchains);
            assert forall|a: int, c: int| 0 <= a < c < w.appchains.len() implies #[trigger] w.appchains[a].appchain_id
                != #[trigger] w.appchains[c].appchain_id by {
                assert(w.appchains[a].appchain_id == v.appchains[a].appchain_id);
                assert(w.appchains[c].appchain_id == v.appchains[c].appchain_id);
            }
        }
        self.top_appchain_id_in_queue = String::new();
        Ok(
            RegistryAction::CreateAnchorAccount {
                account_id: sub_account,
                initial_balance: APPCHAIN_ANCHOR_INIT_BALANCE,
                public_key: crate::registry::copy_bytes(&self.owner_pk),
            },
        )
    }

    fn remove_appchain(&mut self, ctx: &CallContext, appchain_id: &AppchainId) -> (r: Result<
        (),
        RegistryError,
    >)
        ensures
            r == outcome(remove_error(old(self)@, ctx.predecessor_account_id@, appchain_id@)),
            r is Ok ==> final(self)@ == without_appchain(old(self)@, appchain_id@),
            r is Err ==> final(self)@ == old(self)@,
    {
        let i = self.lifecycle_precheck(
            ctx,
            appchain_id,
            AppchainState::Dead,
            AppchainState::Dead,
            AppchainState::Dead,
        )?;
        assert(set![AppchainState::Dead, AppchainState::Dead, AppchainState::Dead] =~= set![AppchainState::Dead]);
        assert(self.appchains@[i as int]@ == appchain_of(self@, appchain_id@));
        if self.appchains[i].upvote_deposit != 0 {
            return Err(RegistryError::AppchainHasUpvoteDeposit);
        }
        if self.appchains[i].downvote_deposit != 0 {
            return Err(RegistryError::AppchainHasDownvoteDeposit);
        }
        self.remove_appchain_at(i);
        Ok(())
    }
}

} // verus!
