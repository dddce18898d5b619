//! A new registry, and the registration of appchains.

use vstd::prelude::*;

use crate::accounts::{is_public_key_bytes, is_valid_account_id, sub_account_id, sub_account_text, valid_account_id};
use crate::appchain_basedata::{AppchainBasedata, AppchainBasedataView};
use crate::deposits::VoteDeposits;
use crate::metadata::{
    ft_metadata_valid, AppchainMetadata, AppchainMetadataView, CustomMetadata, FungibleTokenMetadata,
};
use crate::registry::{
    check, default_settings, either, has_appchain, outcome, AppchainRegistry, CallContext,
    RegistryError, RegistryRoles, RegistryRolesView, RegistrySettings, RegistryView,
    DEFAULT_CONTRACT_CODE_STAGING_DURATION, MAX_APPCHAIN_ID_LEN,
};
use crate::text::{is_blank, text_byte_len, text_contains_char, text_is_blank};
use crate::types::{AppchainId, AppchainState};
use crate::voting::deposit_error;

verus! {

/// The message that registers an appchain, sent with the register deposit.
pub struct RegisterAppchainMessage {
    pub appchain_id: AppchainId,
    pub description: String,
    pub evm_chain_id: Option<u64>,
    pub website_url: String,
    pub github_address: String,
    pub contact_email: String,
    pub premined_wrapped_appchain_token_beneficiary: String,
    pub premined_wrapped_appchain_token: u128,
    pub initial_supply_of_wrapped_appchain_token: u128,
    pub ido_amount_of_wrapped_appchain_token: u128,
    pub initial_era_reward: u128,
    pub fungible_token_metadata: FungibleTokenMetadata,
    pub custom_metadata: CustomMetadata,
}

/// The refusal of a registration, check by check in order.
pub open spec fn register_error(
    v: RegistryView,
    caller: Seq<char>,
    current_account: Seq<char>,
    sender: Seq<char>,
    amount: u128,
    m: RegisterAppchainMessage,
) -> Option<RegistryError> {
    let id = m.appchain_id@;
    let ft = m.fungible_token_metadata@;
    either(
        deposit_error(v, caller),
        either(
            check(sender != v.owner, RegistryError::RegisterByContractOwner),
            either(
                check(!has_appchain(v, id), RegistryError::AppchainAlreadyRegistered),
                either(
                    check(
                        amount >= v.registry_settings.minimum_register_deposit,
                        RegistryError::InvalidRegisterDeposit,
                    ),
                    either(
                        check(!is_blank(id), RegistryError::MissingAppchainId),
                        either(
                            check(!id.contains('.'), RegistryError::InvalidAppchainId),
                            either(
                                check(
                                    vstd::utf8::encode_utf8(id).len() <= MAX_APPCHAIN_ID_LEN,
                                    RegistryError::AppchainIdTooLong,
                                ),
                                either(
                                    check(
                                        valid_account_id(sub_account_text(id, current_account)),
                                        RegistryError::InvalidAppchainId,
                                    ),
                                    registration_fields_error(m),
                                ),
                            ),
                        ),
                    ),
                ),
            ),
        ),
    )
}

/// The refusal for the fields of a registration message after its id.
pub open spec fn registration_fields_error(m: RegisterAppchainMessage) -> Option<RegistryError> {
    let ft = m.fungible_token_metadata@;
    either(
        check(!is_blank(m.website_url@), RegistryError::MissingWebsiteUrl),
        either(
            check(!is_blank(m.github_address@), RegistryError::MissingGithubAddress),
            either(
                check(!is_blank(m.contact_email@), RegistryError::MissingContactEmail),
                either(
                    check(ft_metadata_valid(ft), RegistryError::InvalidFungibleTokenMetadata),
                    either(
                        check(!is_blank(ft.name), RegistryError::MissingFungibleTokenName),
                        either(
                            check(!is_blank(ft.symbol), RegistryError::MissingFungibleTokenSymbol),
                            check(
                                m.initial_supply_of_wrapped_appchain_token
                                    >= m.premined_wrapped_appchain_token,
                                RegistryError::InitialSupplyLessThanPremined,
                            ),
                        ),
                    ),
                ),
            ),
        ),
    )
}

/// The record of an appchain as it is registered: state `registered`, no anchor,
/// no deposits, a score of zero; the function spec url, the github release and the
/// commit id are empty.
pub open spec fn registered_appchain(
    m: RegisterAppchainMessage,
    owner: Seq<char>,
    register_deposit: u128,
    registered_time: u64,
) -> AppchainBasedataView {
    AppchainBasedataView {
        appchain_id: m.appchain_id@,
        evm_chain_id: m.evm_chain_id,
        appchain_metadata: AppchainMetadataView {
            description: m.description@,
            website_url: m.website_url@,
            function_spec_url: Seq::empty(),
            github_address: m.github_address@,
            github_release: Seq::empty(),
            commit_id: Seq::empty(),
            contact_email: m.contact_email@,
            premined_wrapped_appchain_token_beneficiary: Some(
                m.premined_wrapped_appchain_token_beneficiary@,
            ),
            premined_wrapped_appchain_token: m.premined_wrapped_appchain_token,
            initial_supply_of_wrapped_appchain_token: m.initial_supply_of_wrapped_appchain_token,
            ido_amount_of_wrapped_appchain_token: m.ido_amount_of_wrapped_appchain_token,
            initial_era_reward: m.initial_era_reward,
            fungible_token_metadata: m.fungible_token_metadata@,
            custom_metadata: m.custom_metadata@,
        },
        appchain_anchor: None,
        appchain_anchor_code: Seq::empty(),
        appchain_owner: owner,
        register_deposit,
        appchain_state: AppchainState::Registered,
        upvote_deposit: 0,
        downvote_deposit: 0,
        voting_score: 0,
        registered_time,
        go_live_time: 0,
        validator_count: 0,
        total_stake: 0,
    }
}

/// The state of a new registry.
pub open spec fn initial_registry(
    owner: Seq<char>,
    owner_pk: Seq<u8>,
    oct_token: Seq<char>,
) -> RegistryView {
    RegistryView {
        owner,
        owner_pk,
        contract_code_staging_timestamp: u64::MAX,
        contract_code_staging_duration: DEFAULT_CONTRACT_CODE_STAGING_DURATION,
        oct_token,
        registry_settings: default_settings(),
        appchains: Seq::empty(),
        upvote_deposits: Map::empty(),
        downvote_deposits: Map::empty(),
        top_appchain_id_in_queue: Seq::empty(),
        time_of_last_count_voting_score: 0,
        total_stake: 0,
        registry_roles: RegistryRolesView {
            appchain_lifecycle_manager: owner,
            registry_settings_manager: owner,
            operator_of_counting_voting_score: owner,
            octopus_council: None,
        },
        asset_transfer_is_paused: false,
    }
}

impl AppchainRegistry {
    /// A new registry owned by the signer of the transaction, with the signer's
    /// public key, for the given OCT token contract.
    pub fn new(ctx: &CallContext, signer_account_pk: Vec<u8>, oct_token: String) -> (r: Self)
        requires
            is_public_key_bytes(signer_account_pk@),
        ensures
            r.wf(),
            r@ == initial_registry(ctx.signer_account_id@, signer_account_pk@, oct_token@),
    {
        let r = AppchainRegistry {
            owner: ctx.signer_account_id.clone(),
            owner_pk: signer_account_pk,
            contract_code_staging_timestamp: u64::MAX,
            contract_code_staging_duration: DEFAULT_CONTRACT_CODE_STAGING_DURATION,
            oct_token,
            registry_settings: RegistrySettings::default(),
            appchains: Vec::new(),
            upvote_deposits: VoteDeposits::new(),
            downvote_deposits: VoteDeposits::new(),
            top_appchain_id_in_queue: String::new(),
            time_of_last_count_voting_score: 0,
            total_stake: 0,
            registry_roles: RegistryRoles::new_default(&ctx.signer_account_id),
            asset_transfer_is_paused: false,
        };
        assert(r@.appchains =~= Seq::empty());
        r
    }

    /// Registers an appchain from the message sent with a deposit of OCT tokens
    /// (the `ft_on_transfer` message to register). The deposit is kept in full.
    pub fn register_appchain(
        &mut self,
        ctx: &CallContext,
        sender_id: String,
        amount: u128,
        message: RegisterAppchainMessage,
    ) -> (r: Result<(), RegistryError>)
        requires
            old(self).wf(),
        ensures
            final(self).wf(),
            r == outcome(
                register_error(
                    old(self)@,
                    ctx.predecessor_account_id@,
                    ctx.current_account_id@,
                    sender_id@,
                    amount,
                    message,
                ),
            ),
            r is Ok ==> final(self)@ == (RegistryView {
                appchains: old(self)@.appchains.push(
                    registered_appchain(message, sender_id@, amount, ctx.block_timestamp),
                ),
                ..old(self)@
            }),
            r is Err ==> final(self)@ == old(self)@,
    {
        if self.asset_transfer_is_paused {
            return Err(RegistryError::AssetTransferPaused);
        }
        if ctx.predecessor_account_id != self.oct_token {
            return Err(RegistryError::UnknownDepositAsset);
        }
        if sender_id == self.owner {
            return Err(RegistryError::RegisterByContractOwner);
        }
        if self.find_appchain(&message.appchain_id).is_some() {
            return Err(RegistryError::AppchainAlreadyRegistered);
        }
        if amount < self.registry_settings.minimum_register_deposit {
            return Err(RegistryError::InvalidRegisterDeposit);
        }
        let id = &message.appchain_id;
        if text_is_blank(id) {
            return Err(RegistryError::MissingAppchainId);
        }
        if text_contains_char(id, '.') {
            return Err(RegistryError::InvalidAppchainId);
        }
        if text_byte_len(id) > MAX_APPCHAIN_ID_LEN {
            return Err(RegistryError::AppchainIdTooLong);
        }
        if !is_valid_account_id(&sub_account_id(id, &ctx.current_account_id)) {
            return Err(RegistryError::InvalidAppchainId);
        }
        if let Some(e) = registration_fields_check(&message) {
            return Err(e);
        }
        let ghost m = message;
        let RegisterAppchainMessage {
            appchain_id,
            description,
            evm_chain_id,
            website_url,
            github_address,
            contact_email,
            premined_wrapped_appchain_token_beneficiary,
            premined_wrapped_appchain_token,
            initial_supply_of_wrapped_appchain_token,
            ido_amount_of_wrapped_appchain_token,
            initial_era_reward,
            fungible_token_metadata,
            custom_metadata,
        } = message;
        let metadata = AppchainMetadata {
            description,
            website_url,
            function_spec_url: String::new(),
            github_address,
            github_release: String::new(),
            commit_id: String::new(),
            contact_email,
            premined_wrapped_appchain_token_beneficiary: Some(
                premined_wrapped_appchain_token_beneficiary,
            ),
            premined_wrapped_appchain_token,
            initial_supply_of_wrapped_appchain_token,
            ido_amount_of_wrapped_appchain_token,
            initial_era_reward,
            fungible_token_metadata,
            custom_metadata,
        };
        let basedata = AppchainBasedata::new(
            appchain_id,
            evm_chain_id,
            metadata,
            sender_id,
            amount,
            ctx.block_timestamp,
        );
        let ghost v = self@;
        self.appchains.push(basedata);
        proof {
            let nb = registered_appchain(m, self.appchains@.last().appchain_owner@, amount, ctx.block_timestamp);
            assert(self@.appchains =~= v.appchains.push(self.appchains@.last()@));
            assert forall|a: int, c: int| 0 <= a < c < self@.appchains.len() implies #[trigger] self@.appchains[a].appchain_id
                != #[trigger] self@.appchains[c].appchain_id by {
                if c == v.appchains.len() {
                    assert(self@.appchains[a] == v.appchains[a]);
                }
            }
        }
        Ok(())
    }
}

/// The refusal for the fields of a registration message after its id, if any.
fn registration_fields_check(m: &RegisterAppchainMessage) -> (r: Option<RegistryError>)
    ensures
        r == registration_fields_error(*m),
{
    if text_is_blank(&m.website_url) {
        return Some(RegistryError::MissingWebsiteUrl);
    }
    if text_is_blank(&m.github_address) {
        return Some(RegistryError::MissingGithubAddress);
    }
    if text_is_blank(&m.contact_email) {
        return Some(RegistryError::MissingContactEmail);
    }
    if !m.fungible_token_metadata.is_valid() {
        return Some(RegistryError::InvalidFungibleTokenMetadata);
    }
    if text_is_blank(&m.fungible_token_metadata.name) {
        return Some(RegistryError::MissingFungibleTokenName);
    }
    if text_is_blank(&m.fungible_token_metadata.symbol) {
        return Some(RegistryError::MissingFungibleTokenSymbol);
    }
    if m.initial_supply_of_wrapped_appchain_token < m.premined_wrapped_appchain_token {
        return Some(RegistryError::InitialSupplyLessThanPremined);
    }
    None
}

} // verus!
