//! What the registry shows of itself.

use vstd::prelude::*;

use crate::accounts::{public_key_text, public_key_to_string};
use crate::appchain_basedata::{status_of, AppchainBasedataView, AppchainStatus};
use crate::deposits::deposit_in;
use crate::interfaces::RegistryStatus;
use crate::registry::{
    appchain_id_seq, appchain_ids_unique, appchain_of, has_appchain, AppchainRegistry, RegistryRoles, RegistrySettings,
};
use crate::types::{AppchainId, AppchainState};

verus! {

/// Whether an appchain is among those asked for: all where no state is given,
/// else those in the state.
pub open spec fn state_selected(b: AppchainBasedataView, state: Option<AppchainState>) -> bool {
    match state {
        Some(s) => b.appchain_state == s,
        None => true,
    }
}

/// The appchains asked for, in the registry's order.
pub open spec fn selected_appchains(apps: Seq<AppchainBasedataView>, state: Option<AppchainState>) -> Seq<
    AppchainBasedataView,
>
    decreases apps.len(),
{
    if apps.len() == 0 {
        Seq::empty()
    } else {
        let rest = selected_appchains(apps.drop_last(), state);
        if state_selected(apps.last(), state) {
            rest.push(apps.last())
        } else {
            rest
        }
    }
}

/// At most as many appchains are selected as there are.
pub proof fn lemma_selected_len(apps: Seq<AppchainBasedataView>, state: Option<AppchainState>)
    ensures
        selected_appchains(apps, state).len() <= apps.len(),
    decreases apps.len(),
{
    if apps.len() > 0 {
        lemma_selected_len(apps.drop_last(), state);
    }
}

/// Every appchain selected is one of the appchains.
pub proof fn lemma_selected_members(apps: Seq<AppchainBasedataView>, state: Option<AppchainState>)
    ensures
        forall|k: int|
            0 <= k < selected_appchains(apps, state).len() ==> exists|i: int|
                0 <= i < apps.len() && #[trigger] selected_appchains(apps, state)[k] == apps[i],
    decreases apps.len(),
{
    if apps.len() > 0 {
        let rest = apps.drop_last();
        lemma_selected_members(rest, state);
        let sel = selected_appchains(apps, state);
        assert forall|k: int| 0 <= k < sel.len() implies exists|i: int|
            0 <= i < apps.len() && #[trigger] sel[k] == apps[i] by {
            if k < selected_appchains(rest, state).len() {
                let i = choose|i: int| 0 <= i < rest.len() && selected_appchains(rest, state)[k] == rest[i];
                assert(sel[k] == apps[i]);
            } else {
                assert(sel[k] == apps[apps.len() - 1]);
            }
        }
    }
}

/// The appchains selected have different ids, as all appchains do.
pub proof fn lemma_selected_ids_unique(apps: Seq<AppchainBasedataView>, state: Option<AppchainState>)
    requires
        appchain_ids_unique(apps),
    ensures
        appchain_ids_unique(selected_appchains(apps, state)),
    decreases apps.len(),
{
    if apps.len() > 0 {
        let rest = apps.drop_last();
        assert(appchain_ids_unique(rest)) by {
            assert forall|i: int, j: int| 0 <= i < j < rest.len() implies #[trigger] rest[i].appchain_id
                != #[trigger] rest[j].appchain_id by {
                assert(rest[i] == apps[i] && rest[j] == apps[j]);
            }
        }
        lemma_selected_ids_unique(rest, state);
        lemma_selected_members(rest, state);
        let before = selected_appchains(rest, state);
        let sel = selected_appchains(apps, state);
        if state_selected(apps.last(), state) {
            assert forall|a: int, c: int| 0 <= a < c < sel.len() implies #[trigger] sel[a].appchain_id
                != #[trigger] sel[c].appchain_id by {
                if c == sel.len() - 1 {
                    assert(sel[a] == before[a]);
                    let i = choose|i: int| 0 <= i < rest.len() && #[trigger] before[a] == rest[i];
                    assert(rest[i] == apps[i]);
                    assert(sel[c] == apps[apps.len() - 1]);
                } else {
                    assert(sel[a] == before[a] && sel[c] == before[c]);
                }
            }
        }
    }
}

impl RegistryStatus for AppchainRegistry {
    fn get_owner_pk(&self) -> (r: String)
        ensures
            r@ == public_key_text(self@.owner_pk),
    {
        public_key_to_string(&self.owner_pk)
    }

    fn get_oct_token(&self) -> (r: String)
        ensures
            r@ == self@.oct_token,
    {
        self.oct_token.clone()
    }

    fn get_registry_settings(&self) -> (r: RegistrySettings)
        ensures
            r == self@.registry_settings,
    {
        self.registry_settings
    }

    fn get_registry_roles(&self) -> (r: RegistryRoles)
        ensures
            r@ == self@.registry_roles,
    {
        self.registry_roles.copy()
    }

    fn get_total_stake(&self) -> (r: u128)
        ensures
            r == self@.total_stake,
    {
        self.total_stake
    }

    fn get_appchain_ids(&self) -> (r: Vec<String>)
        ensures
            r@.map_values(|s: String| s@) == appchain_id_seq(self@),
    {
        let mut r: Vec<String> = Vec::new();
        let mut j: usize = 0;
        while j < self.appchains.len()
            invariant
                j <= self.appchains@.len(),
                r@.map_values(|s: String| s@) == appchain_id_seq(self@).take(j as int),
            decreases self.appchains.len() - j,
        {
            r.push(self.appchains[j].appchain_id.clone());
            proof {
                assert(appchain_id_seq(self@).take(j + 1) =~= appchain_id_seq(self@).take(j as int).push(
                    self.appchains@[j as int].appchain_id@,
                ));
                assert(r@.map_values(|s: String| s@) =~= appchain_id_seq(self@).take(j + 1));
            }
            j = j + 1;
        }
        assert(appchain_id_seq(self@).take(j as int) =~= appchain_id_seq(self@));
        r
    }

    fn get_appchains_with_state_of(&self, appchain_state: Option<AppchainState>) -> (r: Vec<
        AppchainStatus,
    >)
        ensures
            r@.len() == selected_appchains(self@.appchains, appchain_state).len(),
            forall|k: int|
                0 <= k < r@.len() ==> status_of(
                    &#[trigger] r@[k],
                    selected_appchains(self@.appchains, appchain_state)[k],
                ),
            appchain_ids_unique(selected_appchains(self@.appchains, appchain_state)),
    {
        proof {
            lemma_selected_ids_unique(self@.appchains, appchain_state);
        }
        let ghost apps = self@.appchains;
        let mut r: Vec<AppchainStatus> = Vec::new();
        let mut j: usize = 0;
        while j < self.appchains.len()
            invariant
                apps == self@.appchains,
                j <= apps.len(),
                r@.len() == selected_appchains(apps.take(j as int), appchain_state).len(),
                forall|k: int|
                    0 <= k < r@.len() ==> status_of(
                        &#[trigger] r@[k],
                        selected_appchains(apps.take(j as int), appchain_state)[k],
                    ),
            decreases self.appchains.len() - j,
        {
            let b = &self.appchains[j];
            assert(apps.take(j + 1).drop_last() =~= apps.take(j as int));
            assert(apps.take(j + 1).last() == b@);
            let selected = match appchain_state {
                Some(s) => b.appchain_state == s,
                None => true,
            };
            if selected {
                r.push(b.status());
            }
            j = j + 1;
        }
        assert(apps.take(j as int) =~= apps);
        r
    }

    fn get_appchains_count_of(&self, appchain_state: Option<AppchainState>) -> (r: u64)
        ensures
            r == selected_appchains(self@.appchains, appchain_state).len(),
    {
        let ghost apps = self@.appchains;
        let mut count: u64 = 0;
        let mut j: usize = 0;
        while j < self.appchains.len()
            invariant
                apps == self@.appchains,
                j <= apps.len(),
                count == selected_appchains(apps.take(j as int), appchain_state).len(),
                count <= j,
            decreases self.appchains.len() - j,
        {
            let b = &self.appchains[j];
            assert(apps.take(j + 1).drop_last() =~= apps.take(j as int));
            assert(apps.take(j + 1).last() == b@);
            let selected = match appchain_state {
                Some(s) => b.appchain_state == s,
                None => true,
            };
            if selected {
                count = count + 1;
            }
            j = j + 1;
        }
        assert(apps.take(j as int) =~= apps);
        count
    }

    fn get_appchain_status_of(&self, appchain_id: &AppchainId) -> (r: Option<AppchainStatus>)
        ensures
            r is Some == has_appchain(self@, appchain_id@),
            r matches Some(st) ==> status_of(&st, appchain_of(self@, appchain_id@)),
    {
        match self.find_appchain(appchain_id) {
            Some(i) => {
                assert(self.appchains@[i as int]@ == appchain_of(self@, appchain_id@));
                Some(self.appchains[i].status())
            },
            None => None,
        }
    }

    fn get_upvote_deposit_for(&self, appchain_id: &AppchainId, account_id: &String) -> (r: u128)
        ensures
            r == deposit_in(self@.upvote_deposits, appchain_id@, account_id@),
    {
        self.upvote_deposits.amount_of(appchain_id, account_id)
    }

    fn get_downvote_deposit_for(&self, appchain_id: &AppchainId, account_id: &String) -> (r: u128)
        ensures
            r == deposit_in(self@.downvote_deposits, appchain_id@, account_id@),
    {
        self.downvote_deposits.amount_of(appchain_id, account_id)
    }
}

} // verus!
