use appchain_registry::interfaces::{
    AppchainAnchorCallback, AppchainLifecycleManager, AppchainOwnerActions,
    RegistrySettingsManager, RegistryStatus, SudoActions, VoterActions,
};
use appchain_registry::lifecycle::AppchainMetadataUpdate;
use appchain_registry::metadata::{CustomMetadata, FungibleTokenMetadata};
use appchain_registry::registration::RegisterAppchainMessage;
use appchain_registry::registry::{
    AppchainRegistry, CallContext, MetadataField, RegistryAction, RegistryError, VoteKind,
};
use appchain_registry::types::AppchainState;

const ROOT: &str = "root";
const OCT: &str = "oct_token";
const REGISTRY: &str = "registry";
const NOW: u64 = 1_000_000_000_000;
const DEPOSIT: u128 = 1000 * 1_000_000_000_000_000_000;

fn s(text: &str) -> String {
    text.to_string()
}

fn ctx_at(caller: &str, now: u64) -> CallContext {
    CallContext {
        predecessor_account_id: s(caller),
        signer_account_id: s(caller),
        current_account_id: s(REGISTRY),
        block_timestamp: now,
    }
}

fn ctx(caller: &str) -> CallContext {
    ctx_at(caller, NOW)
}

fn new_registry() -> AppchainRegistry {
    AppchainRegistry::new(&ctx(ROOT), vec![0u8; 33], s(OCT))
}

fn message(appchain_id: &str) -> RegisterAppchainMessage {
    RegisterAppchainMessage {
        appchain_id: s(appchain_id),
        description: s("description"),
        evm_chain_id: None,
        website_url: s("https://example.org"),
        github_address: s("https://github.com/example"),
        contact_email: s("team@example.org"),
        premined_wrapped_appchain_token_beneficiary: s("bob"),
        premined_wrapped_appchain_token: 100,
        initial_supply_of_wrapped_appchain_token: 1000,
        ido_amount_of_wrapped_appchain_token: 10,
        initial_era_reward: 1,
        fungible_token_metadata: FungibleTokenMetadata {
            spec: s("ft-1.0.0"),
            name: s("token"),
            symbol: s("TKN"),
            icon: None,
            reference: None,
            reference_hash: None,
            decimals: 18,
        },
        custom_metadata: CustomMetadata::new(),
    }
}

fn register_with(registry: &mut AppchainRegistry, m: RegisterAppchainMessage) -> Result<(), RegistryError> {
    registry.register_appchain(&ctx(OCT), s("alice"), DEPOSIT, m)
}

fn register(registry: &mut AppchainRegistry, appchain_id: &str) {
    register_with(registry, message(appchain_id)).unwrap();
}

fn state_of(registry: &AppchainRegistry, appchain_id: &str) -> AppchainState {
    registry.get_appchain_status_of(&s(appchain_id)).unwrap().appchain_state
}

fn registry_with(appchain_id: &str, state: AppchainState) -> AppchainRegistry {
    let mut registry = new_registry();
    register(&mut registry, appchain_id);
    if state != AppchainState::Registered {
        registry.force_change_appchain_state(&ctx(ROOT), &s(appchain_id), state).unwrap();
    }
    registry
}

fn no_update() -> AppchainMetadataUpdate {
    AppchainMetadataUpdate {
        description: None,
        evm_chain_id: None,
        website_url: None,
        function_spec_url: None,
        github_address: None,
        github_release: None,
        contact_email: None,
        premined_wrapped_appchain_token_beneficiary: None,
        premined_wrapped_appchain_token: None,
        initial_supply_of_wrapped_appchain_token: None,
        ido_amount_of_wrapped_appchain_token: None,
        initial_era_reward: None,
        fungible_token_metadata: None,
        custom_metadata: None,
    }
}

#[test]
fn new_registry_state() {
    let registry = new_registry();
    assert_eq!(registry.get_owner(), ROOT);
    assert_eq!(registry.get_oct_token(), OCT);
    assert_eq!(registry.get_total_stake(), 0);
    assert_eq!(registry.owner_pk, vec![0u8; 33]);
    assert_eq!(registry.get_registry_settings().minimum_register_deposit, DEPOSIT);
    let roles = registry.get_registry_roles();
    assert_eq!(roles.appchain_lifecycle_manager, ROOT);
    assert_eq!(roles.registry_settings_manager, ROOT);
    assert_eq!(roles.operator_of_counting_voting_score, ROOT);
    assert!(registry.get_appchain_ids().is_empty());
    assert_eq!(registry.get_appchains_count_of(None), 0);
    assert_eq!(registry.get_staging_duration(), 86400);
}

#[test]
fn registration_records_the_appchain() {
    let mut registry = new_registry();
    register(&mut registry, "app1");
    let status = registry.get_appchain_status_of(&s("app1")).unwrap();
    assert_eq!(status.appchain_state, AppchainState::Registered);
    assert_eq!(status.appchain_owner, "alice");
    assert_eq!(status.register_deposit, DEPOSIT);
    assert_eq!(status.registered_time, NOW);
    assert_eq!(status.voting_score, 0);
    assert_eq!(status.appchain_anchor, None);
    assert_eq!(status.appchain_metadata.function_spec_url, "");
    assert_eq!(status.appchain_metadata.premined_wrapped_appchain_token_beneficiary, Some(s("bob")));
    assert_eq!(registry.get_appchain_ids(), vec![s("app1")]);
    assert!(registry.get_appchain_status_of(&s("app2")).is_none());
    // A deposit above the minimum is taken, and kept in full.
    assert_eq!(registry.register_appchain(&ctx(OCT), s("carol"), DEPOSIT + 5, message("app2")), Ok(()));
    assert_eq!(registry.get_appchain_status_of(&s("app2")).unwrap().register_deposit, DEPOSIT + 5);
}

#[test]
fn registration_refusals() {
    let mut registry = new_registry();
    register(&mut registry, "app1");
    let refused = |registry: &mut AppchainRegistry, m: RegisterAppchainMessage| register_with(registry, m).unwrap_err();
    assert_eq!(
        registry.register_appchain(&ctx("other_token"), s("alice"), DEPOSIT, message("app2")),
        Err(RegistryError::UnknownDepositAsset)
    );
    assert_eq!(
        registry.register_appchain(&ctx(OCT), s(ROOT), DEPOSIT, message("app2")),
        Err(RegistryError::RegisterByContractOwner)
    );
    assert_eq!(refused(&mut registry, message("app1")), RegistryError::AppchainAlreadyRegistered);
    assert_eq!(
        registry.register_appchain(&ctx(OCT), s("alice"), DEPOSIT - 1, message("app2")),
        Err(RegistryError::InvalidRegisterDeposit)
    );
    assert_eq!(refused(&mut registry, message("  ")), RegistryError::MissingAppchainId);
    assert_eq!(refused(&mut registry, message("a.b")), RegistryError::InvalidAppchainId);
    assert_eq!(refused(&mut registry, message("abcdefghijklmnopqrstu")), RegistryError::AppchainIdTooLong);
    assert_eq!(refused(&mut registry, message("App2")), RegistryError::InvalidAppchainId);
    let mut m = message("app2");
    m.website_url = s(" ");
    assert_eq!(refused(&mut registry, m), RegistryError::MissingWebsiteUrl);
    let mut m = message("app2");
    m.github_address = s("");
    assert_eq!(refused(&mut registry, m), RegistryError::MissingGithubAddress);
    let mut m = message("app2");
    m.contact_email = s("\t");
    assert_eq!(refused(&mut registry, m), RegistryError::MissingContactEmail);
    let mut m = message("app2");
    m.fungible_token_metadata.spec = s("ft-0.1");
    assert_eq!(refused(&mut registry, m), RegistryError::InvalidFungibleTokenMetadata);
    let mut m = message("app2");
    m.fungible_token_metadata.name = s(" ");
    assert_eq!(refused(&mut registry, m), RegistryError::MissingFungibleTokenName);
    let mut m = message("app2");
    m.fungible_token_metadata.symbol = s("");
    assert_eq!(refused(&mut registry, m), RegistryError::MissingFungibleTokenSymbol);
    let mut m = message("app2");
    m.initial_supply_of_wrapped_appchain_token = 99;
    assert_eq!(refused(&mut registry, m), RegistryError::InitialSupplyLessThanPremined);
    assert_eq!(registry.get_appchains_count_of(None), 1);
    registry.pause_asset_transfer(&ctx(ROOT)).unwrap();
    assert_eq!(refused(&mut registry, message("app2")), RegistryError::AssetTransferPaused);
    registry.resume_asset_transfer(&ctx(ROOT)).unwrap();
    register(&mut registry, "app2");
    assert_eq!(registry.get_appchains_count_of(None), 2);
}

#[test]
fn owner_changes() {
    let mut registry = new_registry();
    assert_eq!(registry.assert_owner(&ctx(ROOT)), Ok(()));
    assert_eq!(registry.assert_owner(&ctx("alice")), Err(RegistryError::NotOwner));
    assert_eq!(registry.set_owner(&ctx("alice"), s("alice")), Err(RegistryError::NotOwner));
    assert_eq!(registry.set_owner(&ctx(ROOT), s(ROOT)), Err(RegistryError::SameAccount));
    assert_eq!(registry.set_owner(&ctx(ROOT), s("alice")), Ok(()));
    assert_eq!(registry.get_owner(), "alice");
}

#[test]
fn owner_public_key_changes() {
    let mut registry = new_registry();
    let key = s("ed25519:6E8sCci9badyRkXb3JoRpBj5p8C6Tw41ELDZoiihKEtp");
    assert_eq!(registry.set_owner_pk(&ctx("alice"), &key), Err(RegistryError::NotOwner));
    assert_eq!(registry.set_owner_pk(&ctx(ROOT), &s("bad key")), Err(RegistryError::InvalidPublicKey));
    assert_eq!(registry.owner_pk, vec![0u8; 33]);
    assert_eq!(registry.set_owner_pk(&ctx(ROOT), &key), Ok(()));
    assert_eq!(registry.owner_pk.len(), 33);
    assert_eq!(registry.owner_pk[0], 0);
    assert_ne!(registry.owner_pk, vec![0u8; 33]);
}

#[test]
fn role_changes() {
    let mut registry = new_registry();
    assert_eq!(
        registry.change_appchain_lifecycle_manager(&ctx("alice"), s("bob")),
        Err(RegistryError::NotRoleHolderOrOwner)
    );
    assert_eq!(
        registry.change_appchain_lifecycle_manager(&ctx(ROOT), s(ROOT)),
        Err(RegistryError::AccountHasRole)
    );
    assert_eq!(registry.change_appchain_lifecycle_manager(&ctx(ROOT), s("manager")), Ok(()));
    assert_eq!(registry.get_registry_roles().appchain_lifecycle_manager, "manager");
    assert_eq!(
        registry.change_registry_settings_manager(&ctx(ROOT), s("manager")),
        Err(RegistryError::AccountHasRole)
    );
    assert_eq!(registry.change_registry_settings_manager(&ctx(ROOT), s("settings")), Ok(()));
    assert_eq!(
        registry.change_registry_settings_manager(&ctx("settings"), s("settings2")),
        Ok(())
    );
    assert_eq!(
        registry.change_operator_of_counting_voting_score(&ctx("manager"), s("operator")),
        Err(RegistryError::NotOwner)
    );
    assert_eq!(registry.change_operator_of_counting_voting_score(&ctx(ROOT), s("operator")), Ok(()));
    assert_eq!(
        registry.change_octopus_council(&ctx(ROOT), s("operator")),
        Err(RegistryError::AccountHasRole)
    );
    assert_eq!(registry.change_octopus_council(&ctx("alice"), s("council")), Err(RegistryError::NotOwner));
    assert_eq!(registry.change_octopus_council(&ctx(ROOT), s("council")), Ok(()));
    let roles = registry.get_registry_roles();
    assert_eq!(roles.registry_settings_manager, "settings2");
    assert_eq!(roles.operator_of_counting_voting_score, "operator");
    assert_eq!(roles.octopus_council, Some(s("council")));
    assert!(roles.has_role(&s("operator")));
    assert!(!roles.has_role(&s(ROOT)));
}

#[test]
fn settings_changes() {
    let mut registry = new_registry();
    assert_eq!(
        registry.change_minimum_register_deposit(&ctx("alice"), 5),
        Err(RegistryError::NotRegistrySettingsManager)
    );
    assert_eq!(
        registry.change_minimum_register_deposit(&ctx(ROOT), 0),
        Err(RegistryError::ZeroMinimumRegisterDeposit)
    );
    assert_eq!(registry.change_minimum_register_deposit(&ctx(ROOT), 5), Ok(()));
    assert_eq!(
        registry.change_voting_result_reduction_percent(&ctx(ROOT), 101),
        Err(RegistryError::InvalidPercent)
    );
    assert_eq!(registry.change_voting_result_reduction_percent(&ctx(ROOT), 100), Ok(()));
    assert_eq!(
        registry.change_counting_interval_in_seconds(&ctx(ROOT), 3600),
        Err(RegistryError::IntervalTooShort)
    );
    assert_eq!(registry.change_counting_interval_in_seconds(&ctx(ROOT), 3601), Ok(()));
    assert_eq!(registry.change_latest_appchain_chain_id(&ctx(ROOT), 8000), Ok(()));
    let settings = registry.get_registry_settings();
    assert_eq!(settings.minimum_register_deposit, 5);
    assert_eq!(settings.voting_result_reduction_percent, 100);
    assert_eq!(settings.counting_interval_in_seconds, 3601);
    assert_eq!(settings.latest_appchain_chain_id, 8000);
}

#[test]
fn appchain_owner_actions() {
    let mut registry = registry_with("app1", AppchainState::Registered);
    let id = s("app1");
    assert_eq!(
        registry.transfer_appchain_ownership(&ctx("alice"), &s("none"), s("bob")),
        Err(RegistryError::AppchainNotFound)
    );
    assert_eq!(
        registry.transfer_appchain_ownership(&ctx("bob"), &id, s("bob")),
        Err(RegistryError::NotAppchainOwner)
    );
    assert_eq!(
        registry.transfer_appchain_ownership(&ctx("alice"), &id, s("alice")),
        Err(RegistryError::OwnerNotChanged)
    );
    let first = CustomMetadata::from_pairs(vec![(s("k1"), s("v1")), (s("k2"), s("v2"))]);
    assert_eq!(registry.update_appchain_custom_metadata(&ctx("alice"), &id, &first), Ok(()));
    let second = CustomMetadata::from_pairs(vec![(s("k2"), s("w2")), (s("k3"), s("v3"))]);
    assert_eq!(registry.update_appchain_custom_metadata(&ctx("alice"), &id, &second), Ok(()));
    let custom = registry.get_appchain_status_of(&id).unwrap().appchain_metadata.custom_metadata;
    assert_eq!(custom.len(), 3);
    assert_eq!(custom.get(&s("k1")), Some(s("v1")));
    assert_eq!(custom.get(&s("k2")), Some(s("w2")));
    assert_eq!(registry.transfer_appchain_ownership(&ctx("alice"), &id, s("bob")), Ok(()));
    assert_eq!(
        registry.update_appchain_custom_metadata(&ctx("alice"), &id, &second),
        Err(RegistryError::NotAppchainOwner)
    );
    assert_eq!(registry.get_appchain_status_of(&id).unwrap().appchain_owner, "bob");
}

#[test]
fn metadata_update_refusals() {
    let mut registry = registry_with("app1", AppchainState::Registered);
    let id = s("app1");
    let mut u = no_update();
    u.description = Some(s("new"));
    assert_eq!(
        registry.update_appchain_metadata(&ctx("alice"), &id, u),
        Err(RegistryError::NotAppchainLifecycleManager)
    );
    assert_eq!(
        registry.update_appchain_metadata(&ctx(ROOT), &s("none"), no_update()),
        Err(RegistryError::AppchainNotFound)
    );
    let mut u = no_update();
    u.description = Some(s("description"));
    assert_eq!(
        registry.update_appchain_metadata(&ctx(ROOT), &id, u),
        Err(RegistryError::MetadataNotChanged(MetadataField::Description))
    );
    let mut u = no_update();
    u.evm_chain_id = Some(0);
    assert_eq!(
        registry.update_appchain_metadata(&ctx(ROOT), &id, u),
        Err(RegistryError::MetadataNotChanged(MetadataField::EvmChainId))
    );
    let mut u = no_update();
    u.website_url = Some(s("https://example.org"));
    assert_eq!(
        registry.update_appchain_metadata(&ctx(ROOT), &id, u),
        Err(RegistryError::MetadataNotChanged(MetadataField::WebsiteUrl))
    );
    let mut u = no_update();
    u.premined_wrapped_appchain_token = Some(2000);
    u.initial_supply_of_wrapped_appchain_token = Some(1500);
    assert_eq!(
        registry.update_appchain_metadata(&ctx(ROOT), &id, u),
        Err(RegistryError::InitialSupplyLessThanPremined)
    );
    let mut u = no_update();
    u.initial_supply_of_wrapped_appchain_token = Some(50);
    assert_eq!(
        registry.update_appchain_metadata(&ctx(ROOT), &id, u),
        Err(RegistryError::InitialSupplyLessThanPremined)
    );
    let mut u = no_update();
    u.initial_era_reward = Some(1);
    assert_eq!(
        registry.update_appchain_metadata(&ctx(ROOT), &id, u),
        Err(RegistryError::MetadataNotChanged(MetadataField::InitialEraReward))
    );
    let mut u = no_update();
    u.description = Some(s("new description"));
    u.evm_chain_id = Some(1234);
    u.function_spec_url = Some(s("https://spec"));
    u.initial_supply_of_wrapped_appchain_token = Some(5000);
    assert_eq!(registry.update_appchain_metadata(&ctx(ROOT), &id, u), Ok(()));
    let status = registry.get_appchain_status_of(&id).unwrap();
    assert_eq!(status.evm_chain_id, Some(1234));
    assert_eq!(status.appchain_metadata.description, "new description");
    assert_eq!(status.appchain_metadata.function_spec_url, "https://spec");
    assert_eq!(status.appchain_metadata.initial_supply_of_wrapped_appchain_token, 5000);
    assert_eq!(status.appchain_metadata.website_url, "https://example.org");
}

#[test]
fn lifecycle_transitions() {
    let mut registry = registry_with("app1", AppchainState::Registered);
    let id = s("app1");
    assert_eq!(
        registry.pass_auditing_appchain(&ctx(ROOT), &id),
        Err(RegistryError::InvalidAppchainState)
    );
    assert_eq!(
        registry.start_auditing_appchain(&ctx("alice"), &id),
        Err(RegistryError::NotAppchainLifecycleManager)
    );
    assert_eq!(
        registry.start_auditing_appchain(&ctx(ROOT), &s("none")),
        Err(RegistryError::AppchainNotFound)
    );
    assert_eq!(registry.start_auditing_appchain(&ctx(ROOT), &id), Ok(()));
    assert_eq!(state_of(&registry, "app1"), AppchainState::Auditing);
    assert_eq!(registry.pass_auditing_appchain(&ctx(ROOT), &id), Ok(()));
    assert_eq!(state_of(&registry, "app1"), AppchainState::InQueue);
    assert_eq!(registry.remove_appchain(&ctx(ROOT), &id), Err(RegistryError::InvalidAppchainState));
    assert_eq!(registry.reject_appchain(&ctx(ROOT), &id), Ok(()));
    assert_eq!(state_of(&registry, "app1"), AppchainState::Dead);
    assert_eq!(registry.reject_appchain(&ctx(ROOT), &id), Err(RegistryError::InvalidAppchainState));
    assert_eq!(registry.remove_appchain(&ctx(ROOT), &id), Ok(()));
    assert!(registry.get_appchain_status_of(&id).is_none());
}

#[test]
fn removal_waits_for_deposits() {
    let mut registry = registry_with("app1", AppchainState::InQueue);
    let id = s("app1");
    assert_eq!(registry.deposit_vote(&ctx(OCT), &s("voter"), 10, &id, VoteKind::Upvote), Ok(0));
    registry.reject_appchain(&ctx(ROOT), &id).unwrap();
    assert_eq!(registry.remove_appchain(&ctx(ROOT), &id), Err(RegistryError::AppchainHasUpvoteDeposit));
    assert!(registry.withdraw_upvote_deposit_of(&ctx("voter"), &id, 10).is_ok());
    assert_eq!(registry.remove_appchain(&ctx(ROOT), &id), Ok(()));
    let mut registry = registry_with("app2", AppchainState::InQueue);
    let id = s("app2");
    assert_eq!(registry.deposit_vote(&ctx(OCT), &s("voter"), 10, &id, VoteKind::Downvote), Ok(0));
    registry.force_change_appchain_state(&ctx(ROOT), &id, AppchainState::Dead).unwrap();
    assert_eq!(registry.remove_appchain(&ctx(ROOT), &id), Err(RegistryError::AppchainHasDownvoteDeposit));
}

#[test]
fn votes_and_withdrawals() {
    let mut registry = registry_with("app1", AppchainState::Registered);
    let id = s("app1");
    // A vote for an appchain that is not in queue is handed back.
    assert_eq!(registry.deposit_vote(&ctx(OCT), &s("voter"), 10, &id, VoteKind::Upvote), Ok(10));
    assert_eq!(registry.deposit_vote(&ctx(OCT), &s("voter"), 10, &s("none"), VoteKind::Upvote), Ok(10));
    assert_eq!(registry.get_upvote_deposit_for(&id, &s("voter")), 0);
    assert_eq!(
        registry.deposit_vote(&ctx("other"), &s("voter"), 10, &id, VoteKind::Upvote),
        Err(RegistryError::UnknownDepositAsset)
    );
    registry.force_change_appchain_state(&ctx(ROOT), &id, AppchainState::InQueue).unwrap();
    assert_eq!(registry.deposit_vote(&ctx(OCT), &s("voter"), 10, &id, VoteKind::Upvote), Ok(0));
    assert_eq!(registry.deposit_vote(&ctx(OCT), &s("voter"), 5, &id, VoteKind::Upvote), Ok(0));
    assert_eq!(registry.deposit_vote(&ctx(OCT), &s("other"), 7, &id, VoteKind::Downvote), Ok(0));
    assert_eq!(registry.get_upvote_deposit_for(&id, &s("voter")), 15);
    assert_eq!(registry.get_downvote_deposit_for(&id, &s("other")), 7);
    let status = registry.get_appchain_status_of(&id).unwrap();
    assert_eq!(status.upvote_deposit, 15);
    assert_eq!(status.downvote_deposit, 7);
    assert_eq!(
        registry.withdraw_upvote_deposit_of(&ctx("voter"), &id, 0).err(),
        Some(RegistryError::ZeroWithdrawAmount)
    );
    assert_eq!(
        registry.withdraw_upvote_deposit_of(&ctx("voter"), &id, 16).err(),
        Some(RegistryError::NotEnoughDeposit)
    );
    assert_eq!(
        registry.withdraw_downvote_deposit_of(&ctx("voter"), &id, 1).err(),
        Some(RegistryError::NotEnoughDeposit)
    );
    match registry.withdraw_upvote_deposit_of(&ctx("voter"), &id, 6) {
        Ok(RegistryAction::WithdrawDeposit { appchain_id, receiver_id, amount, kind }) => {
            assert_eq!(appchain_id, "app1");
            assert_eq!(receiver_id, "voter");
            assert_eq!(amount, 6);
            assert_eq!(kind, VoteKind::Upvote);
        },
        _ => panic!("a withdrawal returns the deposit"),
    }
    assert_eq!(registry.get_upvote_deposit_for(&id, &s("voter")), 9);
    assert_eq!(registry.get_appchain_status_of(&id).unwrap().upvote_deposit, 9);
    assert!(registry.withdraw_downvote_deposit_of(&ctx("other"), &id, 7).is_ok());
    assert_eq!(registry.get_downvote_deposit_for(&id, &s("other")), 0);
}

#[test]
fn withdrawal_undoes_a_vote() {
    let mut registry = registry_with("app1", AppchainState::InQueue);
    let id = s("app1");
    registry.deposit_vote(&ctx(OCT), &s("voter"), 3, &id, VoteKind::Downvote).unwrap();
    let before_voter = registry.get_downvote_deposit_for(&id, &s("voter"));
    let before_total = registry.get_appchain_status_of(&id).unwrap().downvote_deposit;
    registry.deposit_vote(&ctx(OCT), &s("voter"), 40, &id, VoteKind::Downvote).unwrap();
    assert!(registry.withdraw_downvote_deposit_of(&ctx("voter"), &id, 40).is_ok());
    assert_eq!(registry.get_downvote_deposit_for(&id, &s("voter")), before_voter);
    assert_eq!(registry.get_appchain_status_of(&id).unwrap().downvote_deposit, before_total);
}

#[test]
fn paused_transfers_refuse_deposits_and_withdrawals() {
    let mut registry = registry_with("app1", AppchainState::InQueue);
    let id = s("app1");
    registry.deposit_vote(&ctx(OCT), &s("voter"), 3, &id, VoteKind::Upvote).unwrap();
    assert_eq!(registry.pause_asset_transfer(&ctx("alice")), Err(RegistryError::NotOwner));
    assert_eq!(registry.pause_asset_transfer(&ctx(ROOT)), Ok(()));
    assert_eq!(
        registry.deposit_vote(&ctx(OCT), &s("voter"), 3, &id, VoteKind::Upvote),
        Err(RegistryError::AssetTransferPaused)
    );
    assert_eq!(
        registry.withdraw_upvote_deposit_of(&ctx("voter"), &id, 3).err(),
        Some(RegistryError::AssetTransferPaused)
    );
    assert_eq!(registry.resume_asset_transfer(&ctx(ROOT)), Ok(()));
    assert!(registry.withdraw_upvote_deposit_of(&ctx("voter"), &id, 3).is_ok());
}

#[test]
fn counting_refusals() {
    let mut registry = registry_with("app1", AppchainState::Registered);
    let later = NOW + 2 * 86400 * 1_000_000_000;
    // The owner counts until another operator is set.
    assert_eq!(registry.count_voting_score(&ctx_at("alice", later)), Err(RegistryError::NotOperator));
    assert_eq!(
        registry.count_voting_score(&ctx_at(ROOT, 86400 * 1_000_000_000)),
        Err(RegistryError::CountingTooFrequent)
    );
    assert_eq!(registry.count_voting_score(&ctx_at(ROOT, later)), Err(RegistryError::NoAppchainInQueue));
    registry.change_operator_of_counting_voting_score(&ctx(ROOT), s("operator")).unwrap();
    assert_eq!(registry.count_voting_score(&ctx_at(ROOT, later)), Err(RegistryError::NotOperator));
    assert_eq!(registry.count_voting_score(&ctx_at("operator", later)), Err(RegistryError::NoAppchainInQueue));
    // An operator set to the empty account is no operator.
    registry.change_operator_of_counting_voting_score(&ctx(ROOT), s("")).unwrap();
    assert_eq!(registry.count_voting_score(&ctx_at("operator", later)), Err(RegistryError::OperatorNotSet));
}

#[test]
fn counting_picks_the_highest_score() {
    let mut registry = new_registry();
    for id in ["app1", "app2", "app3"].iter() {
        register(&mut registry, id);
        registry.force_change_appchain_state(&ctx(ROOT), &s(id), AppchainState::InQueue).unwrap();
    }
    registry.change_operator_of_counting_voting_score(&ctx(ROOT), s("operator")).unwrap();
    registry.deposit_vote(&ctx(OCT), &s("v1"), 100, &s("app1"), VoteKind::Upvote).unwrap();
    registry.deposit_vote(&ctx(OCT), &s("v1"), 300, &s("app2"), VoteKind::Upvote).unwrap();
    registry.deposit_vote(&ctx(OCT), &s("v2"), 50, &s("app2"), VoteKind::Downvote).unwrap();
    registry.deposit_vote(&ctx(OCT), &s("v2"), 80, &s("app3"), VoteKind::Downvote).unwrap();
    let day = 86400 * 1_000_000_000u64;
    let now = 3 * day + 12345;
    assert_eq!(registry.count_voting_score(&ctx_at("operator", now)), Ok(()));
    let score = |r: &AppchainRegistry, id: &str| r.get_appchain_status_of(&s(id)).unwrap().voting_score;
    assert_eq!(score(&registry, "app1"), 100);
    assert_eq!(score(&registry, "app2"), 250);
    assert_eq!(score(&registry, "app3"), -80);
    assert_eq!(registry.top_appchain_id_in_queue, "app2");
    assert_eq!(registry.time_of_last_count_voting_score, 3 * day);
    assert_eq!(
        registry.count_voting_score(&ctx_at("operator", now + day - 12345)),
        Err(RegistryError::CountingTooFrequent)
    );
    assert_eq!(registry.count_voting_score(&ctx_at("operator", 4 * day + 1)), Ok(()));
    assert_eq!(score(&registry, "app2"), 500);
    assert_eq!(registry.top_appchain_id_in_queue, "app2");
}

#[test]
fn concluding_the_vote() {
    let mut registry = new_registry();
    for id in ["app1", "app2", "app3"].iter() {
        register(&mut registry, id);
        registry.force_change_appchain_state(&ctx(ROOT), &s(id), AppchainState::InQueue).unwrap();
    }
    assert_eq!(registry.conclude_voting_score(&ctx(ROOT)).err(), Some(RegistryError::NoTopAppchainInQueue));
    registry.change_operator_of_counting_voting_score(&ctx(ROOT), s("operator")).unwrap();
    registry.deposit_vote(&ctx(OCT), &s("v1"), 1000, &s("app1"), VoteKind::Upvote).unwrap();
    registry.deposit_vote(&ctx(OCT), &s("v1"), 300, &s("app2"), VoteKind::Upvote).unwrap();
    registry.deposit_vote(&ctx(OCT), &s("v2"), 80, &s("app3"), VoteKind::Downvote).unwrap();
    registry.count_voting_score(&ctx_at("operator", 2 * 86400 * 1_000_000_000)).unwrap();
    assert_eq!(
        registry.conclude_voting_score(&ctx("alice")).err(),
        Some(RegistryError::NotAppchainLifecycleManager)
    );
    match registry.conclude_voting_score(&ctx(ROOT)) {
        Ok(RegistryAction::CreateAnchorAccount { account_id, initial_balance, public_key }) => {
            assert_eq!(account_id, "app1.registry");
            assert_eq!(initial_balance, 26_000_000_000_000_000_000_000_000);
            assert_eq!(public_key, vec![0u8; 33]);
        },
        _ => panic!("concluding creates the anchor account of the top appchain"),
    }
    let status = registry.get_appchain_status_of(&s("app1")).unwrap();
    assert_eq!(status.appchain_state, AppchainState::Staging);
    assert_eq!(status.appchain_anchor, Some(s("app1.registry")));
    let status = registry.get_appchain_status_of(&s("app2")).unwrap();
    assert_eq!(status.appchain_state, AppchainState::InQueue);
    assert_eq!(status.voting_score, 150);
    let status = registry.get_appchain_status_of(&s("app3")).unwrap();
    assert_eq!(status.appchain_state, AppchainState::Dead);
    assert_eq!(status.voting_score, -40);
    assert_eq!(registry.top_appchain_id_in_queue, "");
    assert_eq!(registry.get_appchains_count_of(Some(AppchainState::InQueue)), 1);
    let staging = registry.get_appchains_with_state_of(Some(AppchainState::Staging));
    assert_eq!(staging.len(), 1);
    assert_eq!(staging[0].appchain_id, "app1");
}

#[test]
fn anchor_reports_its_state() {
    let mut registry = registry_with("app1", AppchainState::Staging);
    let id = s("app1");
    assert_eq!(
        registry.sync_state_of(&ctx("app1.registry"), &id, AppchainState::Booting, 3, 300),
        Err(RegistryError::AnchorNotSet)
    );
    assert_eq!(
        registry.sync_state_of(&ctx("app1.registry"), &s("none"), AppchainState::Booting, 3, 300),
        Err(RegistryError::AppchainNotFound)
    );
    registry.appchains[0].set_anchor_account(s("app1.registry"));
    assert_eq!(
        registry.sync_state_of(&ctx("alice"), &id, AppchainState::Booting, 3, 300),
        Err(RegistryError::NotAppchainAnchor)
    );
    assert_eq!(
        registry.sync_state_of(&ctx("app1.registry"), &id, AppchainState::Dead, 3, 300),
        Err(RegistryError::InvalidStateToSync)
    );
    assert_eq!(registry.sync_state_of(&ctx("app1.registry"), &id, AppchainState::Active, 3, 300), Ok(()));
    let status = registry.get_appchain_status_of(&id).unwrap();
    assert_eq!(status.appchain_state, AppchainState::Active);
    assert_eq!(status.validator_count, 3);
    assert_eq!(status.total_stake, 300);
}

#[test]
fn calls_into_anchor_contracts() {
    let mut registry = registry_with("app1", AppchainState::Staging);
    let id = s("app1");
    let call = |r: &mut AppchainRegistry, caller: &str| {
        r.call_anchor_function(&ctx(caller), &id, s("set_value"), s("{\"value\":1}"))
    };
    assert_eq!(call(&mut registry, "council").err(), Some(RegistryError::OctopusCouncilNotSet));
    registry.change_octopus_council(&ctx(ROOT), s("council")).unwrap();
    assert_eq!(call(&mut registry, "alice").err(), Some(RegistryError::NotOctopusCouncil));
    assert_eq!(call(&mut registry, "council").err(), Some(RegistryError::InvalidAppchainState));
    registry.force_change_appchain_state(&ctx(ROOT), &id, AppchainState::Active).unwrap();
    match call(&mut registry, "council") {
        Ok(RegistryAction::CallAnchorFunction { account_id, function_name, args, gas_in_tgas }) => {
            assert_eq!(account_id, "app1.registry");
            assert_eq!(function_name, "set_value");
            assert_eq!(args, b"{\"value\":1}".to_vec());
            assert_eq!(gas_in_tgas, 150);
        },
        _ => panic!("the council calls the anchor"),
    }
}

#[test]
fn owner_creates_anchor_accounts() {
    let mut registry = new_registry();
    assert_eq!(registry.create_anchor_account(&ctx("alice"), &s("app1")).err(), Some(RegistryError::NotOwner));
    assert_eq!(
        registry.create_anchor_account(&ctx(ROOT), &s("App1")).err(),
        Some(RegistryError::InvalidSubAccountId)
    );
    match registry.create_anchor_account(&ctx(ROOT), &s("app1")) {
        Ok(RegistryAction::CreateAnchorAccount { account_id, public_key, .. }) => {
            assert_eq!(account_id, "app1.registry");
            assert_eq!(public_key, vec![0u8; 33]);
        },
        _ => panic!("the owner creates the account"),
    }
}

#[test]
fn owner_forces_changes() {
    let mut registry = registry_with("app1", AppchainState::Registered);
    let id = s("app1");
    assert_eq!(
        registry.force_change_appchain_state(&ctx(ROOT), &id, AppchainState::Registered),
        Err(RegistryError::AlreadyInState)
    );
    assert_eq!(
        registry.force_change_appchain_state(&ctx(ROOT), &s("none"), AppchainState::Active),
        Err(RegistryError::AppchainNotFound)
    );
    assert_eq!(registry.set_evm_chain_id_of_appchain(&ctx("alice"), &id, 7), Err(RegistryError::NotOwner));
    assert_eq!(registry.set_evm_chain_id_of_appchain(&ctx(ROOT), &id, 7), Ok(()));
    assert_eq!(registry.get_appchain_status_of(&id).unwrap().evm_chain_id, Some(7));
    assert_eq!(registry.force_remove_appchain(&ctx(ROOT), &id), Err(RegistryError::InvalidAppchainState));
    registry.force_change_appchain_state(&ctx(ROOT), &id, AppchainState::Dead).unwrap();
    assert_eq!(registry.force_remove_appchain(&ctx("alice"), &id), Err(RegistryError::NotOwner));
    assert_eq!(registry.force_remove_appchain(&ctx(ROOT), &id), Ok(()));
    assert_eq!(registry.get_appchains_count_of(None), 0);
}

#[test]
fn removal_moves_the_last_appchain_into_place() {
    let mut registry = new_registry();
    for id in ["app1", "app2", "app3"].iter() {
        register(&mut registry, id);
    }
    registry.force_change_appchain_state(&ctx(ROOT), &s("app1"), AppchainState::Dead).unwrap();
    registry.remove_appchain(&ctx(ROOT), &s("app1")).unwrap();
    assert_eq!(registry.get_appchain_ids(), vec![s("app3"), s("app2")]);
    assert_eq!(registry.get_appchains_count_of(Some(AppchainState::Registered)), 2);
    assert_eq!(registry.get_appchains_count_of(Some(AppchainState::Dead)), 0);
}

#[test]
fn code_staging_and_deployment() {
    let mut registry = new_registry();
    let duration = registry.get_staging_duration();
    assert_eq!(registry.deploy_code(&ctx(ROOT)).err(), Some(RegistryError::DeployTooEarly));
    assert_eq!(registry.stage_code(&ctx("alice"), NOW + duration + 1), Err(RegistryError::NotOwner));
    assert_eq!(
        registry.stage_code(&ctx(ROOT), NOW + duration),
        Err(RegistryError::StagingTimestampTooEarly)
    );
    assert_eq!(registry.stage_code(&ctx(ROOT), NOW + duration + 1), Ok(()));
    assert_eq!(registry.contract_code_staging_timestamp, NOW + duration + 1);
    assert_eq!(
        registry.deploy_code(&ctx_at(ROOT, NOW + duration + 1)).err(),
        Some(RegistryError::DeployTooEarly)
    );
    assert_eq!(registry.deploy_code(&ctx_at("alice", NOW + duration + 2)).err(), Some(RegistryError::NotOwner));
    assert!(matches!(
        registry.deploy_code(&ctx_at(ROOT, NOW + duration + 2)),
        Ok(RegistryAction::DeployStagedCode)
    ));
}

#[test]
fn wasm_storage_cost() {
    let registry = new_registry();
    assert_eq!(registry.check_wasm_storage(&ctx(ROOT), 100, 10, 1320), Ok(1320));
    assert_eq!(
        registry.check_wasm_storage(&ctx(ROOT), 100, 10, 1319),
        Err(RegistryError::NotEnoughStorageDeposit)
    );
    assert_eq!(registry.check_wasm_storage(&ctx("alice"), 100, 10, 5000), Err(RegistryError::NotOwner));
    assert_eq!(
        registry.check_wasm_storage(&ctx(ROOT), 100, u128::MAX / 2, u128::MAX),
        Err(RegistryError::ArithmeticOverflow)
    );
}

#[test]
fn appchains_by_state() {
    let mut registry = new_registry();
    for id in ["app1", "app2", "app3"].iter() {
        register(&mut registry, id);
    }
    registry.force_change_appchain_state(&ctx(ROOT), &s("app2"), AppchainState::Auditing).unwrap();
    assert_eq!(registry.get_appchain_ids(), vec![s("app1"), s("app2"), s("app3")]);
    let registered = registry.get_appchains_with_state_of(Some(AppchainState::Registered));
    assert_eq!(registered.len(), 2);
    assert_eq!(registered[0].appchain_id, "app1");
    assert_eq!(registered[1].appchain_id, "app3");
    assert_eq!(registry.get_appchains_with_state_of(None).len(), 3);
    assert_eq!(registry.get_appchains_count_of(Some(AppchainState::Auditing)), 1);
    assert_eq!(registry.get_appchains_count_of(Some(AppchainState::Active)), 0);
}

#[test]
fn concluding_with_full_reduction_keeps_zero_scores_in_queue() {
    let mut registry = new_registry();
    for id in ["app1", "app2"].iter() {
        register(&mut registry, id);
        registry.force_change_appchain_state(&ctx(ROOT), &s(id), AppchainState::InQueue).unwrap();
    }
    registry.change_voting_result_reduction_percent(&ctx(ROOT), 100).unwrap();
    registry.change_operator_of_counting_voting_score(&ctx(ROOT), s("operator")).unwrap();
    registry.deposit_vote(&ctx(OCT), &s("v1"), 500, &s("app1"), VoteKind::Upvote).unwrap();
    registry.deposit_vote(&ctx(OCT), &s("v1"), 200, &s("app2"), VoteKind::Upvote).unwrap();
    registry.count_voting_score(&ctx_at("operator", 2 * 86400 * 1_000_000_000)).unwrap();
    assert!(registry.conclude_voting_score(&ctx(ROOT)).is_ok());
    let status = registry.get_appchain_status_of(&s("app2")).unwrap();
    assert_eq!(status.appchain_state, AppchainState::InQueue);
    assert_eq!(status.voting_score, 0);
}

#[test]
fn an_appchain_record_is_replaced_in_place() {
    let mut registry = new_registry();
    register(&mut registry, "app1");
    register(&mut registry, "app2");
    let i = registry.find_appchain(&s("app2")).unwrap();
    assert_eq!(i, 1);
    assert_eq!(registry.find_appchain(&s("app3")), None);
    let mut record = appchain_registry::appchain_basedata::AppchainBasedata::new(
        s("app2"),
        Some(3),
        registry.appchains[1].metadata().copy(),
        s("dave"),
        7,
        9,
    );
    let mut metadata = record.metadata().copy();
    metadata.description = s("replaced");
    record.set_metadata(metadata);
    registry.replace_appchain(i, record);
    let status = registry.get_appchain_status_of(&s("app2")).unwrap();
    assert_eq!(status.appchain_owner, "dave");
    assert_eq!(status.register_deposit, 7);
    assert_eq!(status.appchain_metadata.description, "replaced");
    assert!(registry.is_well_formed());
    assert_eq!(registry.get_appchain_ids(), vec![s("app1"), s("app2")]);
}

#[test]
fn ill_formed_registries_are_recognised() {
    let mut registry = new_registry();
    assert!(registry.is_well_formed());
    register(&mut registry, "app1");
    let copy = appchain_registry::appchain_basedata::AppchainBasedata::new(
        s("app1"),
        None,
        registry.appchains[0].metadata().copy(),
        s("eve"),
        1,
        1,
    );
    registry.appchains.push(copy);
    assert!(!registry.is_well_formed());
    let mut registry = new_registry();
    registry.owner_pk = vec![0u8; 32];
    assert!(!registry.is_well_formed());
    let mut registry = new_registry();
    registry.registry_settings.counting_interval_in_seconds = 0;
    assert!(!registry.is_well_formed());
    let mut registry = new_registry();
    registry.registry_settings.voting_result_reduction_percent = 101;
    assert!(!registry.is_well_formed());
}

#[test]
fn deposits_are_checked_before_their_message() {
    let mut registry = new_registry();
    assert_eq!(registry.check_deposit(&ctx(OCT)), Ok(()));
    assert_eq!(registry.check_deposit(&ctx("other")), Err(RegistryError::UnknownDepositAsset));
    registry.pause_asset_transfer(&ctx(ROOT)).unwrap();
    assert_eq!(registry.check_deposit(&ctx(OCT)), Err(RegistryError::AssetTransferPaused));
}

#[test]
fn staging_just_beyond_the_duration() {
    let mut registry = new_registry();
    let duration = registry.get_staging_duration();
    assert_eq!(registry.stage_code(&ctx(ROOT), NOW + duration + 1), Ok(()));
    assert_eq!(registry.stage_code(&ctx(ROOT), NOW + duration), Err(RegistryError::StagingTimestampTooEarly));
}

#[test]
fn concluding_ends_a_zero_score() {
    let mut registry = new_registry();
    for id in ["app1", "app2"].iter() {
        register(&mut registry, id);
        registry.force_change_appchain_state(&ctx(ROOT), &s(id), AppchainState::InQueue).unwrap();
    }
    registry.deposit_vote(&ctx(OCT), &s("v1"), 500, &s("app1"), VoteKind::Upvote).unwrap();
    registry.count_voting_score(&ctx_at(ROOT, 2 * 86400 * 1_000_000_000)).unwrap();
    assert!(registry.conclude_voting_score(&ctx(ROOT)).is_ok());
    let status = registry.get_appchain_status_of(&s("app2")).unwrap();
    assert_eq!(status.voting_score, 0);
    assert_eq!(status.appchain_state, AppchainState::Dead);
}
