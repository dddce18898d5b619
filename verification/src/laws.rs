//! Properties of the registry that span requests.

use vstd::prelude::*;

use crate::appchain_basedata::{
    counted_voting_score, lemma_reduced_bounds, reduced_voting_score, AppchainBasedataView,
};
use crate::lifecycle::{metadata_updated, without_appchain, AppchainMetadataUpdate};
use crate::registry::{appchain_ids_unique, with_appchain_at};
use crate::deposits::deposit_in;
use crate::lifecycle::{concluded, conclude_error, lifecycle_error, remove_error};
use crate::registration::{register_error, registered_appchain, RegisterAppchainMessage};
use crate::registry::{
    appchain_index, appchain_of, has_appchain, registry_wf, roles_include, RegistryError,
    RegistryRolesView, RegistryView, VoteKind,
};
use crate::accounts::sub_account_text;
use crate::ownership::appchain_owner_error;
use crate::roles::{new_role_holder_error, settings_manager_error, with_roles};
use crate::status::selected_appchains;
use crate::storage_key::{
    lemma_storage_key_text_shape, same_storage_key, storage_key_id, storage_key_kind, storage_key_text,
    StorageKey,
};
use crate::types::AppchainState;
use crate::voting::{
    any_in_queue, appchain_deposit, count_error, counted, deposits_of_kind, is_top_candidate, vote_error,
    vote_taken, with_deposits, withdraw_error,
};

verus! {

/// A registered appchain is found under its id, as it was registered, and the
/// registry stays well formed.
pub proof fn law_registered_appchain_is_found(
    v: RegistryView,
    message: RegisterAppchainMessage,
    owner: Seq<char>,
    register_deposit: u128,
    registered_time: u64,
)
    requires
        registry_wf(v),
        !has_appchain(v, message.appchain_id@),
    ensures
        ({
            let w = RegistryView {
                appchains: v.appchains.push(
                    registered_appchain(message, owner, register_deposit, registered_time),
                ),
                ..v
            };
            &&& registry_wf(w)
            &&& has_appchain(w, message.appchain_id@)
            &&& appchain_of(w, message.appchain_id@) == registered_appchain(
                message,
                owner,
                register_deposit,
                registered_time,
            )
            &&& appchain_of(w, message.appchain_id@).appchain_state == AppchainState::Registered
        }),
{
    let b = registered_appchain(message, owner, register_deposit, registered_time);
    let w = RegistryView { appchains: v.appchains.push(b), ..v };
    let n = v.appchains.len();
    assert(w.appchains[n as int].appchain_id == message.appchain_id@);
    assert forall|a: int, c: int| 0 <= a < c < w.appchains.len() implies #[trigger] w.appchains[a].appchain_id
        != #[trigger] w.appchains[c].appchain_id by {
        if c == n {
            assert(w.appchains[a] == v.appchains[a]);
            if w.appchains[a].appchain_id == message.appchain_id@ {
                assert(has_appchain(v, message.appchain_id@));
            }
        } else {
            assert(w.appchains[a] == v.appchains[a]);
            assert(w.appchains[c] == v.appchains[c]);
        }
    }
    let k = appchain_index(w, message.appchain_id@);
    assert(k == n) by {
        if k != n {
            assert(w.appchains[k] == v.appchains[k]);
            assert(has_appchain(v, message.appchain_id@));
        }
    }
}

/// Withdrawing what a voter deposited for an appchain in queue is never refused
/// and gives back the registry as it was before the deposit.
pub proof fn law_withdraw_undoes_vote(
    v: RegistryView,
    appchain_id: Seq<char>,
    voter: Seq<char>,
    kind: VoteKind,
    amount: u128,
)
    requires
        registry_wf(v),
        !v.asset_transfer_is_paused,
        vote_taken(v, appchain_id),
        amount > 0,
        deposit_in(deposits_of_kind(v, kind), appchain_id, voter) + amount <= u128::MAX,
        appchain_deposit(appchain_of(v, appchain_id), kind) + amount <= u128::MAX,
    ensures
        ({
            let w = with_deposits(
                v,
                appchain_id,
                voter,
                kind,
                (deposit_in(deposits_of_kind(v, kind), appchain_id, voter) + amount) as u128,
                (appchain_deposit(appchain_of(v, appchain_id), kind) + amount) as u128,
            );
            &&& withdraw_error(w, voter, appchain_id, kind, amount) is None
            &&& with_deposits(
                w,
                appchain_id,
                voter,
                kind,
                (deposit_in(deposits_of_kind(w, kind), appchain_id, voter) - amount) as u128,
                (appchain_deposit(appchain_of(w, appchain_id), kind) - amount) as u128,
            ) == v
        }),
{
    let d = deposit_in(deposits_of_kind(v, kind), appchain_id, voter);
    let b = appchain_deposit(appchain_of(v, appchain_id), kind);
    let i = appchain_index(v, appchain_id);
    let w = with_deposits(v, appchain_id, voter, kind, (d + amount) as u128, (b + amount) as u128);
    let key = (appchain_id, voter);
    assert(w.appchains[i].appchain_id == appchain_id);
    assert(appchain_index(w, appchain_id) == i) by {
        let k = appchain_index(w, appchain_id);
        if k != i {
            assert(w.appchains[k] == v.appchains[k]);
            if k < i {
                assert(v.appchains[k].appchain_id != v.appchains[i].appchain_id);
            } else {
                assert(v.appchains[i].appchain_id != v.appchains[k].appchain_id);
            }
        }
    }
    let u = with_deposits(w, appchain_id, voter, kind, d as u128, b as u128);
    assert(u.appchains =~= v.appchains);
    let m = deposits_of_kind(v, kind);
    if d == 0 {
        assert(m.insert(key, (d + amount) as u128).remove(key) =~= m) by {
            if m.dom().contains(key) {
                assert(m[key] == d);
            }
        }
    } else {
        assert(m.insert(key, (d + amount) as u128).insert(key, d as u128) =~= m);
    }
    assert(deposits_of_kind(u, kind) =~= m);
    match kind {
        VoteKind::Upvote => {
            assert(u.upvote_deposits =~= v.upvote_deposits);
        },
        VoteKind::Downvote => {
            assert(u.downvote_deposits =~= v.downvote_deposits);
        },
    }
}

/// After a counting of voting scores, the top of the queue is an appchain in queue
/// whose score no other appchain in queue exceeds.
pub proof fn law_count_tops_highest_score(v: RegistryView, now: u64, w: RegistryView)
    requires
        registry_wf(v),
        any_in_queue(v.appchains),
        counted(v, now, w),
    ensures
        has_appchain(w, w.top_appchain_id_in_queue),
        is_top_candidate(w.appchains, appchain_index(w, w.top_appchain_id_in_queue)),
{
    let apps = w.appchains;
    assert forall|k: int| 0 <= k < v.appchains.len() implies #[trigger] apps[k].appchain_id
        == v.appchains[k].appchain_id by {}
    crate::voting::lemma_same_ids_same_index(v, w, v.top_appchain_id_in_queue);
    if crate::voting::previous_top_stays(v, apps) {
        let p = appchain_index(v, v.top_appchain_id_in_queue);
        assert(apps[p].appchain_id == w.top_appchain_id_in_queue);
    } else {
        let m = choose|m: int|
            crate::voting::is_first_top(apps, m) && w.top_appchain_id_in_queue
                == apps[m].appchain_id;
        assert(apps[m].appchain_id == w.top_appchain_id_in_queue);
        assert(v.appchains[m].appchain_id == w.top_appchain_id_in_queue);
        crate::voting::lemma_same_ids_same_index(v, w, w.top_appchain_id_in_queue);
    }
}

/// After the voting is concluded, every appchain left in queue had a positive
/// score, and keeps a score between zero and that score.
pub proof fn law_conclude_keeps_only_positive_scores_in_queue(
    v: RegistryView,
    caller: Seq<char>,
    current_account: Seq<char>,
)
    requires
        registry_wf(v),
        conclude_error(v, caller, current_account) is None,
    ensures
        forall|j: int|
            0 <= j < v.appchains.len() && #[trigger] concluded(v, current_account).appchains[j].appchain_state
                == AppchainState::InQueue ==> {
                let s = v.appchains[j].voting_score;
                let r = concluded(v, current_account).appchains[j].voting_score;
                &&& v.appchains[j].appchain_state == AppchainState::InQueue
                &&& s > 0
                &&& 0 <= r <= s
            },
{
    let w = concluded(v, current_account);
    let top = appchain_index(v, v.top_appchain_id_in_queue);
    let p = v.registry_settings.voting_result_reduction_percent;
    assert forall|j: int|
        0 <= j < v.appchains.len() && #[trigger] w.appchains[j].appchain_state
            == AppchainState::InQueue implies {
        let s = v.appchains[j].voting_score;
        let r = w.appchains[j].voting_score;
        &&& v.appchains[j].appchain_state == AppchainState::InQueue
        &&& s > 0
        &&& 0 <= r <= s
    } by {
        assert(j != top);
        lemma_reduced_bounds(v.appchains[j].voting_score as int, p as int);
    }
}

/// Concluding the voting sends the top appchain to staging with its anchor
/// account, reduces the score of every other appchain in queue by the reduction
/// percent, ends those whose score was negative or zero and keeps the others in
/// queue, leaves the appchains out of the queue as they were, and clears the top
/// of the queue.
pub proof fn law_conclude_stages_top_and_reduces_queue(
    v: RegistryView,
    caller: Seq<char>,
    current_account: Seq<char>,
)
    requires
        registry_wf(v),
        conclude_error(v, caller, current_account) is None,
    ensures
        ({
            let w = concluded(v, current_account);
            let top = appchain_index(v, v.top_appchain_id_in_queue);
            &&& w.top_appchain_id_in_queue.len() == 0
            &&& w.appchains.len() == v.appchains.len()
            &&& w.appchains[top].appchain_id == v.top_appchain_id_in_queue
            &&& w.appchains[top].appchain_state == AppchainState::Staging
            &&& w.appchains[top].appchain_anchor == Some(
                sub_account_text(v.top_appchain_id_in_queue, current_account),
            )
            &&& forall|j: int|
                0 <= j < v.appchains.len() && j != top && #[trigger] v.appchains[j].appchain_state
                    == AppchainState::InQueue ==> (w.appchains[j].appchain_state == AppchainState::Dead
                    <==> v.appchains[j].voting_score <= 0) && (w.appchains[j].appchain_state
                    == AppchainState::Dead || w.appchains[j].appchain_state == AppchainState::InQueue)
                    && w.appchains[j].voting_score == reduced_voting_score(
                    v.appchains[j].voting_score,
                    v.registry_settings.voting_result_reduction_percent,
                )->0
            &&& forall|j: int|
                0 <= j < v.appchains.len() && j != top && #[trigger] v.appchains[j].appchain_state
                    != AppchainState::InQueue ==> w.appchains[j] == v.appchains[j]
        }),
{
    let top = appchain_index(v, v.top_appchain_id_in_queue);
    assert(0 <= top < v.appchains.len());
}

/// Only the registry settings manager changes the registry settings.
pub proof fn law_settings_need_manager(v: RegistryView, caller: Seq<char>)
    requires
        caller != v.registry_roles.registry_settings_manager,
    ensures
        settings_manager_error(v, caller) == Some(RegistryError::NotRegistrySettingsManager),
{
}

/// Only the owner of an appchain transfers its ownership or changes its custom
/// metadata.
pub proof fn law_appchain_owner_actions_need_owner(v: RegistryView, caller: Seq<char>, id: Seq<char>)
    requires
        has_appchain(v, id),
        caller != appchain_of(v, id).appchain_owner,
    ensures
        appchain_owner_error(v, caller, id) == Some(RegistryError::NotAppchainOwner),
{
}

/// An appchain is removed by its lifecycle manager only once it is dead and all
/// its voters have withdrawn their deposits.
pub proof fn law_removal_needs_dead_without_deposits(v: RegistryView, caller: Seq<char>, id: Seq<char>)
    requires
        remove_error(v, caller, id) is None,
    ensures
        caller == v.registry_roles.appchain_lifecycle_manager,
        has_appchain(v, id),
        appchain_of(v, id).appchain_state == AppchainState::Dead,
        appchain_of(v, id).upvote_deposit == 0,
        appchain_of(v, id).downvote_deposit == 0,
{
    assert(set![AppchainState::Dead].contains(appchain_of(v, id).appchain_state));
}

/// Only the appchain lifecycle manager moves appchains along their lifecycle.
pub proof fn law_lifecycle_needs_manager(
    v: RegistryView,
    caller: Seq<char>,
    current_account: Seq<char>,
    id: Seq<char>,
    allowed: Set<AppchainState>,
)
    requires
        caller != v.registry_roles.appchain_lifecycle_manager,
    ensures
        lifecycle_error(v, caller, id, allowed) == Some(RegistryError::NotAppchainLifecycleManager),
        remove_error(v, caller, id) == Some(RegistryError::NotAppchainLifecycleManager),
        conclude_error(v, caller, current_account) == Some(
            RegistryError::NotAppchainLifecycleManager,
        ),
{
}

/// While asset transfer is paused, no deposit is taken and none is withdrawn.
pub proof fn law_pause_stops_transfers(
    v: RegistryView,
    caller: Seq<char>,
    current_account: Seq<char>,
    sender: Seq<char>,
    id: Seq<char>,
    kind: VoteKind,
    amount: u128,
    message: RegisterAppchainMessage,
)
    requires
        v.asset_transfer_is_paused,
    ensures
        register_error(v, caller, current_account, sender, amount, message) == Some(
            RegistryError::AssetTransferPaused,
        ),
        vote_error(v, caller, sender, id, kind, amount) == Some(RegistryError::AssetTransferPaused),
        withdraw_error(v, caller, id, kind, amount) == Some(RegistryError::AssetTransferPaused),
{
}

/// The lifecycle manager, the settings manager, the operator of counting and the
/// owner are different accounts.
pub open spec fn roles_distinct(v: RegistryView) -> bool {
    let r = v.registry_roles;
    &&& r.appchain_lifecycle_manager != r.registry_settings_manager
    &&& r.appchain_lifecycle_manager != r.operator_of_counting_voting_score
    &&& r.registry_settings_manager != r.operator_of_counting_voting_score
    &&& r.appchain_lifecycle_manager != v.owner
    &&& r.registry_settings_manager != v.owner
    &&& r.operator_of_counting_voting_score != v.owner
}

/// A role goes only to an account that holds no other role and does not own the
/// registry, so an account never holds two of the roles.
pub proof fn law_role_change_keeps_roles_distinct(v: RegistryView, account: Seq<char>)
    requires
        roles_distinct(v),
        new_role_holder_error(v, account) is None,
    ensures
        roles_distinct(
            with_roles(
                v,
                RegistryRolesView { appchain_lifecycle_manager: account, ..v.registry_roles },
            ),
        ),
        roles_distinct(
            with_roles(v, RegistryRolesView { registry_settings_manager: account, ..v.registry_roles }),
        ),
        roles_distinct(
            with_roles(
                v,
                RegistryRolesView { operator_of_counting_voting_score: account, ..v.registry_roles },
            ),
        ),
{
}

/// Two storage keys that do not name the same entry have different texts, so no
/// two entries share a storage prefix.
pub proof fn law_storage_key_texts_distinct(k1: &StorageKey, k2: &StorageKey)
    requires
        !same_storage_key(k1, k2),
    ensures
        storage_key_text(k1) != storage_key_text(k2),
{
    lemma_storage_key_text_shape(k1);
    lemma_storage_key_text_shape(k2);
    let t1 = storage_key_text(k1);
    let t2 = storage_key_text(k2);
    if t1 == t2 {
        if storage_key_kind(k1) >= 5 && storage_key_kind(k2) >= 5 {
            assert(t1[t1.len() - 2] == t2[t2.len() - 2]);
            assert(storage_key_id(k1) == t1.subrange(0, storage_key_id(k1).len() as int));
            assert(storage_key_id(k2) == t2.subrange(0, storage_key_id(k2).len() as int));
        } else if storage_key_kind(k1) == 2 || storage_key_kind(k2) == 2 {
            assert(t1[11] == t2[11]);
            assert(t1[t1.len() - 2] == t2[t2.len() - 2]);
        } else {
            assert(t1[0] == t2[0]);
        }
    }
}

/// Asking for the appchains in no particular state gives them all.
pub proof fn law_selecting_no_state_gives_all(apps: Seq<AppchainBasedataView>)
    ensures
        selected_appchains(apps, None) == apps,
    decreases apps.len(),
{
    if apps.len() > 0 {
        law_selecting_no_state_gives_all(apps.drop_last());
        assert(apps.drop_last().push(apps.last()) =~= apps);
    } else {
        assert(apps =~= Seq::empty());
    }
}

/// `x as i128` for an amount: the amount itself where it fits, else the amount
/// less 2^128.
pub open spec fn amount_as_i128(x: u128) -> int {
    if x <= 0x7fff_ffff_ffff_ffff_ffff_ffff_ffff_ffff {
        x as int
    } else {
        x - 0x1_0000_0000_0000_0000_0000_0000_0000_0000
    }
}

/// Counting a score adds the upvote deposit and takes away the downvote deposit,
/// whichever is larger; it fails only where the result leaves the range of `i128`.
pub proof fn law_counted_score_adds_upvotes_less_downvotes(score: i128, upvote: u128, downvote: u128)
    requires
        upvote <= i128::MAX,
        downvote <= i128::MAX,
    ensures
        i128::MIN <= score + upvote - downvote <= i128::MAX ==> counted_voting_score(
            score,
            upvote,
            downvote,
        ) == Some((score + upvote - downvote) as i128),
        !(i128::MIN <= score + upvote - downvote <= i128::MAX) ==> counted_voting_score(
            score,
            upvote,
            downvote,
        ) is None,
{
}

/// A counting of voting scores adds to the score of every appchain in queue its
/// upvote deposit and takes away its downvote deposit (each read as `i128`), and
/// leaves every other appchain as it was.
pub proof fn law_count_adds_deposits_to_queue(v: RegistryView, caller: Seq<char>, now: u64, w: RegistryView)
    requires
        registry_wf(v),
        count_error(v, caller, now) is None,
        counted(v, now, w),
    ensures
        w.appchains.len() == v.appchains.len(),
        forall|j: int|
            0 <= j < v.appchains.len() && #[trigger] v.appchains[j].appchain_state == AppchainState::InQueue
                ==> w.appchains[j].voting_score == v.appchains[j].voting_score + amount_as_i128(
                v.appchains[j].upvote_deposit,
            ) - amount_as_i128(v.appchains[j].downvote_deposit) && w.appchains[j].appchain_state
                == AppchainState::InQueue && w.appchains[j].upvote_deposit == v.appchains[j].upvote_deposit
                && w.appchains[j].downvote_deposit == v.appchains[j].downvote_deposit,
        forall|j: int|
            0 <= j < v.appchains.len() && #[trigger] v.appchains[j].appchain_state != AppchainState::InQueue
                ==> w.appchains[j] == v.appchains[j],
{
}

/// A registered appchain holds what its message gave, field by field: its
/// metadata, its EVM chain id, the sender as owner and the whole amount as its
/// register deposit; it starts registered, with no anchor, no votes and no
/// score, and with an empty function spec url, github release and commit id.
pub proof fn law_registration_keeps_the_message(
    v: RegistryView,
    message: RegisterAppchainMessage,
    sender: Seq<char>,
    amount: u128,
    time: u64,
    w: RegistryView,
)
    requires
        registry_wf(v),
        !has_appchain(v, message.appchain_id@),
        w == (RegistryView {
            appchains: v.appchains.push(registered_appchain(message, sender, amount, time)),
            ..v
        }),
    ensures
        has_appchain(w, message.appchain_id@),
        ({
            let b = appchain_of(w, message.appchain_id@);
            let md = b.appchain_metadata;
            &&& b.appchain_id == message.appchain_id@
            &&& b.evm_chain_id == message.evm_chain_id
            &&& b.appchain_owner == sender
            &&& b.register_deposit == amount
            &&& b.registered_time == time
            &&& b.appchain_state == AppchainState::Registered
            &&& b.appchain_anchor is None
            &&& b.upvote_deposit == 0 && b.downvote_deposit == 0 && b.voting_score == 0
            &&& md.description == message.description@
            &&& md.website_url == message.website_url@
            &&& md.github_address == message.github_address@
            &&& md.contact_email == message.contact_email@
            &&& md.premined_wrapped_appchain_token_beneficiary == Some(
                message.premined_wrapped_appchain_token_beneficiary@,
            )
            &&& md.premined_wrapped_appchain_token == message.premined_wrapped_appchain_token
            &&& md.initial_supply_of_wrapped_appchain_token
                == message.initial_supply_of_wrapped_appchain_token
            &&& md.ido_amount_of_wrapped_appchain_token == message.ido_amount_of_wrapped_appchain_token
            &&& md.initial_era_reward == message.initial_era_reward
            &&& md.fungible_token_metadata == message.fungible_token_metadata@
            &&& md.custom_metadata == message.custom_metadata@
            &&& md.function_spec_url.len() == 0
            &&& md.github_release.len() == 0
            &&& md.commit_id.len() == 0
        }),
        forall|j: int| 0 <= j < v.appchains.len() ==> #[trigger] w.appchains[j] == v.appchains[j],
{
    law_registered_appchain_is_found(v, message, sender, amount, time);
}

/// An applied metadata update sets every field it gives to the given value and
/// leaves every field it does not give, the commit id, and every other appchain
/// as they were.
pub proof fn law_metadata_update_sets_given_fields(
    v: RegistryView,
    id: Seq<char>,
    u: AppchainMetadataUpdate,
    w: RegistryView,
)
    requires
        registry_wf(v),
        has_appchain(v, id),
        w == with_appchain_at(v, appchain_index(v, id), metadata_updated(appchain_of(v, id), u)),
    ensures
        has_appchain(w, id),
        appchain_index(w, id) == appchain_index(v, id),
        ({
            let old_b = appchain_of(v, id);
            let old_md = old_b.appchain_metadata;
            let b = appchain_of(w, id);
            let md = b.appchain_metadata;
            &&& (u.description matches Some(x) ==> md.description == x@)
            &&& (u.description is None ==> md.description == old_md.description)
            &&& (u.website_url matches Some(x) ==> md.website_url == x@)
            &&& (u.website_url is None ==> md.website_url == old_md.website_url)
            &&& (u.function_spec_url matches Some(x) ==> md.function_spec_url == x@)
            &&& (u.function_spec_url is None ==> md.function_spec_url == old_md.function_spec_url)
            &&& (u.github_address matches Some(x) ==> md.github_address == x@)
            &&& (u.github_address is None ==> md.github_address == old_md.github_address)
            &&& (u.github_release matches Some(x) ==> md.github_release == x@)
            &&& (u.github_release is None ==> md.github_release == old_md.github_release)
            &&& (u.contact_email matches Some(x) ==> md.contact_email == x@)
            &&& (u.contact_email is None ==> md.contact_email == old_md.contact_email)
            &&& md.commit_id == old_md.commit_id
            &&& (u.evm_chain_id matches Some(e) ==> b.evm_chain_id == Some(e))
            &&& (u.evm_chain_id is None ==> b.evm_chain_id == old_b.evm_chain_id)
            &&& (u.premined_wrapped_appchain_token_beneficiary matches Some(a)
                ==> md.premined_wrapped_appchain_token_beneficiary == Some(a@))
            &&& (u.premined_wrapped_appchain_token_beneficiary is None
                ==> md.premined_wrapped_appchain_token_beneficiary
                == old_md.premined_wrapped_appchain_token_beneficiary)
            &&& (u.premined_wrapped_appchain_token matches Some(x) ==> md.premined_wrapped_appchain_token == x)
            &&& (u.premined_wrapped_appchain_token is None ==> md.premined_wrapped_appchain_token
                == old_md.premined_wrapped_appchain_token)
            &&& (u.initial_supply_of_wrapped_appchain_token matches Some(x)
                ==> md.initial_supply_of_wrapped_appchain_token == x)
            &&& (u.initial_supply_of_wrapped_appchain_token is None
                ==> md.initial_supply_of_wrapped_appchain_token
                == old_md.initial_supply_of_wrapped_appchain_token)
            &&& (u.ido_amount_of_wrapped_appchain_token matches Some(x)
                ==> md.ido_amount_of_wrapped_appchain_token == x)
            &&& (u.ido_amount_of_wrapped_appchain_token is None
                ==> md.ido_amount_of_wrapped_appchain_token == old_md.ido_amount_of_wrapped_appchain_token)
            &&& (u.initial_era_reward matches Some(x) ==> md.initial_era_reward == x)
            &&& (u.initial_era_reward is None ==> md.initial_era_reward == old_md.initial_era_reward)
            &&& (u.fungible_token_metadata matches Some(f) ==> md.fungible_token_metadata == f@)
            &&& (u.fungible_token_metadata is None ==> md.fungible_token_metadata
                == old_md.fungible_token_metadata)
            &&& (u.custom_metadata matches Some(c) ==> md.custom_metadata == c@)
            &&& (u.custom_metadata is None ==> md.custom_metadata == old_md.custom_metadata)
            &&& b.appchain_id == old_b.appchain_id
            &&& b.appchain_owner == old_b.appchain_owner
            &&& b.appchain_state == old_b.appchain_state
            &&& b.voting_score == old_b.voting_score
            &&& b.upvote_deposit == old_b.upvote_deposit
            &&& b.downvote_deposit == old_b.downvote_deposit
        }),
        forall|j: int|
            0 <= j < v.appchains.len() && j != appchain_index(v, id) ==> #[trigger] w.appchains[j]
                == v.appchains[j],
{
    let i = appchain_index(v, id);
    assert forall|k: int| 0 <= k < v.appchains.len() implies #[trigger] w.appchains[k].appchain_id
        == v.appchains[k].appchain_id by {}
    crate::voting::lemma_same_ids_same_index(v, w, id);
}

/// The appchain `b` is one of the appchains of `v` other than the one with id `id`.
pub open spec fn came_from(v: RegistryView, id: Seq<char>, b: AppchainBasedataView) -> bool {
    exists|j: int| 0 <= j < v.appchains.len() && v.appchains[j] == b && #[trigger] v.appchains[j].appchain_id != id
}

/// Removing an appchain takes out that appchain and no other: it is no longer
/// registered, one appchain fewer remains, every other appchain stays registered
/// as it was, and nothing else comes in.
pub proof fn law_removal_takes_out_exactly_the_appchain(v: RegistryView, id: Seq<char>)
    requires
        registry_wf(v),
        has_appchain(v, id),
    ensures
        ({
            let w = without_appchain(v, id);
            &&& !has_appchain(w, id)
            &&& w.appchains.len() == v.appchains.len() - 1
            &&& forall|j: int|
                0 <= j < v.appchains.len() && #[trigger] v.appchains[j].appchain_id != id ==> exists|k: int|
                    0 <= k < w.appchains.len() && w.appchains[k] == v.appchains[j]
            &&& forall|k: int|
                0 <= k < w.appchains.len() ==> #[trigger] came_from(v, id, w.appchains[k])
        }),
{
    let w = without_appchain(v, id);
    let i = appchain_index(v, id);
    let n = v.appchains.len();
    assert(v.appchains[i].appchain_id == id);
    assert forall|k: int| 0 <= k < w.appchains.len() implies #[trigger] came_from(v, id, w.appchains[k]) by {
        let j = if k == i { n - 1 } else { k };
        assert(w.appchains[k] == v.appchains[j]);
        assert(j != i);
        if v.appchains[j].appchain_id == id {
            if j < i {
                assert(v.appchains[j].appchain_id != v.appchains[i].appchain_id);
            } else {
                assert(v.appchains[i].appchain_id != v.appchains[j].appchain_id);
            }
        }
    }
    if has_appchain(w, id) {
        let k = choose|k: int| 0 <= k < w.appchains.len() && #[trigger] w.appchains[k].appchain_id == id;
        let j = if k == i { n - 1 } else { k };
        assert(w.appchains[k] == v.appchains[j]);
        if j < i {
            assert(v.appchains[j].appchain_id != v.appchains[i].appchain_id);
        } else {
            assert(v.appchains[i].appchain_id != v.appchains[j].appchain_id);
        }
    }
    assert forall|j: int|
        0 <= j < v.appchains.len() && #[trigger] v.appchains[j].appchain_id != id implies exists|k: int|
        0 <= k < w.appchains.len() && w.appchains[k] == v.appchains[j] by {
        assert(j != i);
        if j == n - 1 {
            assert(w.appchains[i] == v.appchains[j]);
        } else {
            assert(w.appchains[j] == v.appchains[j]);
        }
    }
}

/// Asking for the appchains in a state gives exactly the appchains in that state,
/// in the registry's order: each one returned is in the state, and each one in the
/// state is returned.
pub proof fn law_selecting_a_state_gives_exactly_that_state(
    apps: Seq<AppchainBasedataView>,
    s: AppchainState,
)
    ensures
        selected_appchains(apps, Some(s)) == apps.filter(|b: AppchainBasedataView| b.appchain_state == s),
        forall|k: int|
            0 <= k < selected_appchains(apps, Some(s)).len() ==> (#[trigger] selected_appchains(
                apps,
                Some(s),
            )[k]).appchain_state == s,
        forall|j: int|
            0 <= j < apps.len() && #[trigger] apps[j].appchain_state == s ==> selected_appchains(
                apps,
                Some(s),
            ).contains(apps[j]),
    decreases apps.len(),
{
    let pred = |b: AppchainBasedataView| b.appchain_state == s;
    reveal(Seq::filter);
    if apps.len() > 0 {
        law_selecting_a_state_gives_exactly_that_state(apps.drop_last(), s);
    }
    assert(selected_appchains(apps, Some(s)) == apps.filter(pred));
    assert forall|k: int| 0 <= k < apps.filter(pred).len() implies (#[trigger] apps.filter(pred)[k]).appchain_state
        == s by {
        apps.lemma_filter_pred(pred, k);
    }
    assert forall|j: int| 0 <= j < apps.len() && #[trigger] apps[j].appchain_state == s implies apps.filter(
        pred,
    ).contains(apps[j]) by {
        apps.lemma_filter_contains(pred, j);
    }
}

} // verus!
