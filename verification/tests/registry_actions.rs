use appchain_registry::appchain_basedata::AppchainStatus;
use appchain_registry::interfaces::{
    AppchainLifecycleManager, AppchainOwnerActions, RegistrySettingsManager, RegistryStatus,
    VoterActions,
};
use appchain_registry::lifecycle::AppchainMetadataUpdate;
use appchain_registry::metadata::{CustomMetadata, FungibleTokenMetadata};
use appchain_registry::registration::RegisterAppchainMessage;
use appchain_registry::registry::{AppchainRegistry, CallContext, RegistryError, VoteKind};
use appchain_registry::types::AppchainState;

const DAY: u64 = 86400 * 1_000_000_000;
const ROOT: &str = "root";
const OCT: &str = "oct_token";
const USERS: [&str; 5] = ["alice", "bob", "charlie", "dave", "eve"];

fn to_oct_amount(amount: u128) -> u128 {
    amount * 10u128.pow(18)
}

fn ctx_at(caller: &str, now: u64) -> CallContext {
    CallContext {
        predecessor_account_id: caller.to_string(),
        signer_account_id: caller.to_string(),
        current_account_id: "registry".to_string(),
        block_timestamp: now,
    }
}

fn ctx(caller: &str) -> CallContext {
    ctx_at(caller, DAY)
}

fn new_registry() -> AppchainRegistry {
    let mut key = vec![0u8; 33];
    key[1] = 7;
    AppchainRegistry::new(&ctx(ROOT), key, OCT.to_string())
}

fn pairs(entries: &[(&str, &str)]) -> Vec<(String, String)> {
    entries.iter().map(|(k, v)| (k.to_string(), v.to_string())).collect()
}

fn message(appchain_id: &str) -> RegisterAppchainMessage {
    RegisterAppchainMessage {
        appchain_id: appchain_id.to_string(),
        description: "appchain1 description".to_string(),
        evm_chain_id: None,
        website_url: "http://ddfs.dsdfs".to_string(),
        github_address: "https://jldfs.yoasdfasd".to_string(),
        contact_email: "joe@lksdf.com".to_string(),
        premined_wrapped_appchain_token_beneficiary: "bob".to_string(),
        premined_wrapped_appchain_token: 10000000,
        initial_supply_of_wrapped_appchain_token: 10000000,
        ido_amount_of_wrapped_appchain_token: 1000000,
        initial_era_reward: 100,
        fungible_token_metadata: FungibleTokenMetadata {
            spec: "ft-1.0.0".to_string(),
            name: "joeToken".to_string(),
            symbol: "JOT".to_string(),
            icon: None,
            reference: None,
            reference_hash: None,
            decimals: 18,
        },
        custom_metadata: CustomMetadata::from_pairs(pairs(&[("key1", "value1")])),
    }
}

fn register(registry: &mut AppchainRegistry, sender: &str, appchain_id: &str, amount: u128) -> Result<(), RegistryError> {
    registry.register_appchain(&ctx(OCT), sender.to_string(), amount, message(appchain_id))
}

fn status(registry: &AppchainRegistry, appchain_id: &str) -> AppchainStatus {
    registry.get_appchain_status_of(&appchain_id.to_string()).unwrap()
}

fn vote(registry: &mut AppchainRegistry, voter: &str, appchain_id: &str, amount: u128, kind: VoteKind) -> u128 {
    registry.deposit_vote(&ctx(OCT), &voter.to_string(), amount, &appchain_id.to_string(), kind).unwrap()
}

fn count_all(registry: &AppchainRegistry) -> u64 {
    registry.get_appchains_count_of(None)
}

/// Register, update metadata, start auditing, reject and remove.
#[test]
fn test_registry_actions_test_case1() {
    let mut registry = new_registry();
    let users = USERS;
    // The register deposit this scenario starts from.
    registry.change_minimum_register_deposit(&ctx(ROOT), to_oct_amount(100)).unwrap();
    assert_eq!(registry.get_registry_settings().minimum_register_deposit, to_oct_amount(100));
    let amount = to_oct_amount(120);
    assert!(registry.change_minimum_register_deposit(&ctx(users[0]), amount).is_err());
    assert!(registry.change_minimum_register_deposit(&ctx(ROOT), amount).is_ok());
    assert_eq!(registry.get_registry_settings().minimum_register_deposit, to_oct_amount(120));
    //
    let appchain_id = "test_appchain";
    assert_eq!(
        register(&mut registry, users[0], appchain_id, to_oct_amount(100)),
        Err(RegistryError::InvalidRegisterDeposit)
    );
    assert_eq!(count_all(&registry), 0);
    assert!(register(&mut registry, users[0], appchain_id, to_oct_amount(120)).is_ok());
    let appchain = status(&registry, appchain_id);
    assert_eq!(appchain.appchain_state, AppchainState::Registered);
    assert_eq!(appchain.register_deposit, to_oct_amount(120));
    //
    let id = appchain_id.to_string();
    assert!(registry.transfer_appchain_ownership(&ctx(users[1]), &id, users[1].to_string()).is_err());
    assert!(registry.transfer_appchain_ownership(&ctx(users[0]), &id, users[1].to_string()).is_ok());
    assert_eq!(status(&registry, appchain_id).appchain_owner, users[1]);
    //
    let custom = CustomMetadata::from_pairs(pairs(&[("key1", "value1"), ("key2", "value2")]));
    assert!(registry.update_appchain_custom_metadata(&ctx(users[0]), &id, &custom).is_err());
    assert!(registry.update_appchain_custom_metadata(&ctx(users[1]), &id, &custom).is_ok());
    assert_eq!(status(&registry, appchain_id).appchain_metadata.custom_metadata.len(), 2);
    //
    let update = || AppchainMetadataUpdate {
        description: None,
        evm_chain_id: None,
        website_url: Some("https://oct.network".to_string()),
        function_spec_url: None,
        github_address: None,
        github_release: None,
        contact_email: Some("yangzhen@oct.network".to_string()),
        premined_wrapped_appchain_token_beneficiary: None,
        premined_wrapped_appchain_token: None,
        initial_supply_of_wrapped_appchain_token: None,
        ido_amount_of_wrapped_appchain_token: None,
        initial_era_reward: None,
        fungible_token_metadata: None,
        custom_metadata: Some(CustomMetadata::from_pairs(pairs(&[("key3", "value3")]))),
    };
    assert!(registry.update_appchain_metadata(&ctx(users[0]), &id, update()).is_err());
    assert!(registry.update_appchain_metadata(&ctx(ROOT), &id, update()).is_ok());
    let appchain = status(&registry, appchain_id);
    assert_eq!(appchain.appchain_metadata.website_url, "https://oct.network");
    assert_eq!(appchain.appchain_metadata.contact_email, "yangzhen@oct.network");
    assert_eq!(appchain.appchain_metadata.custom_metadata.len(), 1);
    //
    assert!(registry.start_auditing_appchain(&ctx(users[1]), &id).is_err());
    assert!(registry.start_auditing_appchain(&ctx(ROOT), &id).is_ok());
    assert_eq!(status(&registry, appchain_id).appchain_state, AppchainState::Auditing);
    // Votes for an appchain that is not in queue are handed back in full.
    assert_eq!(vote(&mut registry, users[2], appchain_id, to_oct_amount(300), VoteKind::Upvote), to_oct_amount(300));
    assert_eq!(registry.get_upvote_deposit_for(&id, &users[2].to_string()), 0);
    assert_eq!(vote(&mut registry, users[3], appchain_id, to_oct_amount(200), VoteKind::Downvote), to_oct_amount(200));
    assert_eq!(registry.get_downvote_deposit_for(&id, &users[3].to_string()), 0);
    //
    assert!(registry.reject_appchain(&ctx(users[4]), &id).is_err());
    assert!(registry.reject_appchain(&ctx(ROOT), &id).is_ok());
    assert_eq!(status(&registry, appchain_id).appchain_state, AppchainState::Dead);
    //
    assert!(registry.remove_appchain(&ctx(users[2]), &id).is_err());
    assert!(registry.remove_appchain(&ctx(ROOT), &id).is_ok());
    assert_eq!(count_all(&registry), 0);
}

/// Pass auditing, upvote, downvote, count, withdraw and conclude.
#[test]
fn test_registry_actions_test_case2() {
    let mut registry = new_registry();
    let users = USERS;
    // The register deposit this scenario starts from.
    registry.change_minimum_register_deposit(&ctx(ROOT), to_oct_amount(100)).unwrap();
    let ids = ["test_appchain1", "test_appchain2", "test_appchain3"];
    for (k, id) in ids.iter().enumerate() {
        assert!(register(&mut registry, users[k + 1], id, to_oct_amount(100)).is_ok());
        assert_eq!(status(&registry, id).appchain_state, AppchainState::Registered);
    }
    let id1 = ids[0].to_string();
    assert!(registry.pass_auditing_appchain(&ctx(ROOT), &id1).is_err());
    assert!(registry.pass_auditing_appchain(&ctx(users[0]), &id1).is_err());
    assert!(registry.pass_auditing_appchain(&ctx(users[1]), &id1).is_err());
    for id in ids.iter() {
        let id = id.to_string();
        assert!(registry.start_auditing_appchain(&ctx(ROOT), &id).is_ok());
        assert_eq!(status(&registry, &id).appchain_state, AppchainState::Auditing);
        assert!(registry.pass_auditing_appchain(&ctx(ROOT), &id).is_ok());
        assert_eq!(status(&registry, &id).appchain_state, AppchainState::InQueue);
    }
    assert_eq!(count_all(&registry), 3);
    //
    assert_eq!(vote(&mut registry, users[0], ids[0], to_oct_amount(1000), VoteKind::Upvote), 0);
    assert_eq!(vote(&mut registry, users[0], ids[1], to_oct_amount(1500), VoteKind::Downvote), 0);
    assert_eq!(vote(&mut registry, users[4], ids[1], to_oct_amount(2000), VoteKind::Upvote), 0);
    assert_eq!(vote(&mut registry, users[4], ids[2], to_oct_amount(800), VoteKind::Downvote), 0);
    let a1 = status(&registry, ids[0]);
    assert_eq!(a1.upvote_deposit, to_oct_amount(1000));
    assert_eq!(a1.downvote_deposit, 0);
    let a2 = status(&registry, ids[1]);
    assert_eq!(a2.upvote_deposit, to_oct_amount(2000));
    assert_eq!(a2.downvote_deposit, to_oct_amount(1500));
    let a3 = status(&registry, ids[2]);
    assert_eq!(a3.upvote_deposit, 0);
    assert_eq!(a3.downvote_deposit, to_oct_amount(800));
    let mut now = 2 * DAY;
    assert!(registry.count_voting_score(&ctx_at(users[1], now)).is_err());
    assert!(registry.count_voting_score(&ctx_at(ROOT, now)).is_ok());
    assert_eq!(status(&registry, ids[0]).voting_score, to_oct_amount(1000) as i128);
    assert_eq!(status(&registry, ids[1]).voting_score, to_oct_amount(500) as i128);
    assert_eq!(status(&registry, ids[2]).voting_score, 0 - to_oct_amount(800) as i128);
    //
    let voter0 = ctx(users[0]);
    let voter4 = ctx(users[4]);
    assert!(registry.withdraw_upvote_deposit_of(&voter0, &id1, to_oct_amount(1000) + 1).is_err());
    let id3 = ids[2].to_string();
    assert!(registry.withdraw_downvote_deposit_of(&voter4, &id3, to_oct_amount(800) + 1).is_err());
    //
    assert!(registry.withdraw_upvote_deposit_of(&voter0, &id1, to_oct_amount(550)).is_ok());
    assert_eq!(registry.get_upvote_deposit_for(&id1, &users[0].to_string()), to_oct_amount(450));
    assert!(registry.withdraw_downvote_deposit_of(&voter4, &id3, to_oct_amount(450)).is_ok());
    assert_eq!(registry.get_downvote_deposit_for(&id3, &users[4].to_string()), to_oct_amount(350));
    //
    now += 2 * DAY;
    assert!(registry.count_voting_score(&ctx_at(users[2], now)).is_err());
    assert!(registry.count_voting_score(&ctx_at(ROOT, now)).is_ok());
    assert_eq!(status(&registry, ids[0]).voting_score, to_oct_amount(1450) as i128);
    assert_eq!(status(&registry, ids[1]).voting_score, to_oct_amount(1000) as i128);
    assert_eq!(status(&registry, ids[2]).voting_score, 0 - to_oct_amount(1150) as i128);
    //
    let id2 = ids[1].to_string();
    assert!(registry.withdraw_downvote_deposit_of(&voter0, &id2, to_oct_amount(550)).is_ok());
    assert_eq!(registry.get_downvote_deposit_for(&id2, &users[0].to_string()), to_oct_amount(950));
    assert!(registry.withdraw_upvote_deposit_of(&voter4, &id2, to_oct_amount(50)).is_ok());
    assert_eq!(registry.get_upvote_deposit_for(&id2, &users[4].to_string()), to_oct_amount(1950));
    //
    now += 2 * DAY;
    assert!(registry.count_voting_score(&ctx_at(users[3], now)).is_err());
    assert!(registry.count_voting_score(&ctx_at(ROOT, now)).is_ok());
    assert_eq!(status(&registry, ids[0]).voting_score, to_oct_amount(1900) as i128);
    assert_eq!(status(&registry, ids[1]).voting_score, to_oct_amount(2000) as i128);
    assert_eq!(status(&registry, ids[2]).voting_score, 0 - to_oct_amount(1500) as i128);
    //
    assert!(registry.change_voting_result_reduction_percent(&ctx(users[4]), 60).is_err());
    assert!(registry.change_voting_result_reduction_percent(&ctx(ROOT), 101).is_err());
    assert!(registry.change_voting_result_reduction_percent(&ctx(ROOT), 60).is_ok());
    //
    assert!(registry.conclude_voting_score(&ctx(users[0])).is_err());
    assert!(registry.conclude_voting_score(&ctx(ROOT)).is_ok());
    assert_eq!(status(&registry, ids[0]).voting_score, to_oct_amount(760) as i128);
    let a2 = status(&registry, ids[1]);
    assert_eq!(a2.appchain_state, AppchainState::Staging);
    assert_eq!(a2.voting_score, to_oct_amount(2000) as i128);
    assert_eq!(status(&registry, ids[2]).voting_score, 0 - to_oct_amount(600) as i128);
    // An appchain in queue with a negative score is dead once the voting is
    // concluded, so two appchains are left in queue or staging.
    assert_eq!(status(&registry, ids[2]).appchain_state, AppchainState::Dead);
    assert_eq!(
        registry.get_appchains_count_of(Some(AppchainState::InQueue))
            + registry.get_appchains_count_of(Some(AppchainState::Staging)),
        2
    );
}

/// Staging new code of the registry.
#[test]
fn test_registry_actions_test_case3() {
    let mut registry = new_registry();
    let now = DAY;
    let staging_timestamp = now + 1000000000 + 86500;
    assert!(registry.stage_code(&ctx_at(ROOT, now), staging_timestamp).is_ok());
    assert_eq!(registry.contract_code_staging_timestamp, staging_timestamp);
}

/// Fifty appchains in queue, counted three times and concluded.
#[test]
fn test_case3_test_case3() {
    let mut registry = new_registry();
    let users = USERS;
    let mut i: u128 = 1;
    while i <= 50 {
        let appchain_id = format!("test_appchain{}", i);
        let amount = to_oct_amount(1000);
        assert!(register(&mut registry, users[1], &appchain_id, amount).is_ok());
        assert_eq!(status(&registry, &appchain_id).appchain_state, AppchainState::Registered);
        assert!(registry.start_auditing_appchain(&ctx(ROOT), &appchain_id).is_ok());
        assert_eq!(status(&registry, &appchain_id).appchain_state, AppchainState::Auditing);
        assert!(registry.pass_auditing_appchain(&ctx(ROOT), &appchain_id).is_ok());
        assert_eq!(status(&registry, &appchain_id).appchain_state, AppchainState::InQueue);
        assert_eq!(vote(&mut registry, users[0], &appchain_id, to_oct_amount(i * 10), VoteKind::Upvote), 0);
        i += 1;
    }
    assert_eq!(count_all(&registry), 50);
    //
    assert!(registry.change_operator_of_counting_voting_score(&ctx(ROOT), users[3].to_string()).is_ok());
    let mut now = DAY;
    for _ in 0..3 {
        now += 2 * DAY;
        assert!(registry.count_voting_score(&ctx_at(users[3], now)).is_ok());
    }
    assert!(registry.conclude_voting_score(&ctx(ROOT)).is_ok());
    assert_eq!(
        registry.get_appchains_count_of(Some(AppchainState::InQueue))
            + registry.get_appchains_count_of(Some(AppchainState::Staging)),
        50
    );
    assert_eq!(status(&registry, "test_appchain50").appchain_state, AppchainState::Staging);
    match registry.conclude_voting_score(&ctx(ROOT)) {
        Err(RegistryError::NoTopAppchainInQueue) => {}
        _ => panic!("the top of the queue is cleared"),
    }
}
