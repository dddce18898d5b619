//! Votes for appchains: the deposits that voters make and withdraw, and the
//! counting of voting scores.

use vstd::prelude::*;

use crate::appchain_basedata::{
    checked_counted_score, counted_voting_score, AppchainBasedata, AppchainBasedataView,
};
use crate::deposits::deposit_in;
use crate::interfaces::VoterActions;
use crate::registry::{
    outcome, appchain_index, appchain_of, check, either, has_appchain, registry_wf, with_appchain_at,
    AppchainRegistry, CallContext, RegistryAction, RegistryError, RegistryView, VoteKind,
    NANO_SECONDS_MULTIPLE,
};
use crate::types::{AppchainId, AppchainState};

verus! {

/// The deposits of voters of the given kind.
pub open spec fn deposits_of_kind(v: RegistryView, kind: VoteKind) -> Map<(Seq<char>, Seq<char>), u128> {
    match kind {
        VoteKind::Upvote => v.upvote_deposits,
        VoteKind::Downvote => v.downvote_deposits,
    }
}

/// The deposit of the given kind that an appchain holds in all.
pub open spec fn appchain_deposit(b: AppchainBasedataView, kind: VoteKind) -> u128 {
    match kind {
        VoteKind::Upvote => b.upvote_deposit,
        VoteKind::Downvote => b.downvote_deposit,
    }
}

/// The registry with the deposit of `voter` for `id` and the appchain's deposit of
/// the kind set to the given amounts; a voter's deposit of zero is dropped.
pub open spec fn with_deposits(
    v: RegistryView,
    id: Seq<char>,
    voter: Seq<char>,
    kind: VoteKind,
    voter_amount: u128,
    appchain_amount: u128,
) -> RegistryView {
    let i = appchain_index(v, id);
    let b = v.appchains[i];
    let key = (id, voter);
    let m = deposits_of_kind(v, kind);
    let m2 = if voter_amount == 0 {
        m.remove(key)
    } else {
        m.insert(key, voter_amount)
    };
    match kind {
        VoteKind::Upvote => RegistryView {
            appchains: v.appchains.update(i, AppchainBasedataView { upvote_deposit: appchain_amount, ..b }),
            upvote_deposits: m2,
            ..v
        },
        VoteKind::Downvote => RegistryView {
            appchains: v.appchains.update(
                i,
                AppchainBasedataView { downvote_deposit: appchain_amount, ..b },
            ),
            downvote_deposits: m2,
            ..v
        },
    }
}

/// The refusal of a deposit of OCT tokens: transfers are paused, or the tokens
/// are not OCT.
pub open spec fn deposit_error(v: RegistryView, caller: Seq<char>) -> Option<RegistryError> {
    either(
        check(!v.asset_transfer_is_paused, RegistryError::AssetTransferPaused),
        check(caller == v.oct_token, RegistryError::UnknownDepositAsset),
    )
}

/// Whether a vote for the appchain is taken: it is registered and in queue.
pub open spec fn vote_taken(v: RegistryView, id: Seq<char>) -> bool {
    has_appchain(v, id) && appchain_of(v, id).appchain_state == AppchainState::InQueue
}

/// The refusal of a vote deposit: as for any deposit, then an overflow of the
/// voter's or the appchain's deposit where the vote is taken.
pub open spec fn vote_error(
    v: RegistryView,
    caller: Seq<char>,
    voter: Seq<char>,
    id: Seq<char>,
    kind: VoteKind,
    amount: u128,
) -> Option<RegistryError> {
    either(
        deposit_error(v, caller),
        check(
            !vote_taken(v, id) || (deposit_in(deposits_of_kind(v, kind), id, voter) + amount
                <= u128::MAX && appchain_deposit(appchain_of(v, id), kind) + amount <= u128::MAX),
            RegistryError::ArithmeticOverflow,
        ),
    )
}

/// The refusal of a withdrawal.
pub open spec fn withdraw_error(
    v: RegistryView,
    voter: Seq<char>,
    id: Seq<char>,
    kind: VoteKind,
    amount: u128,
) -> Option<RegistryError> {
    either(
        check(!v.asset_transfer_is_paused, RegistryError::AssetTransferPaused),
        either(
            check(amount > 0, RegistryError::ZeroWithdrawAmount),
            either(
                check(
                    deposit_in(deposits_of_kind(v, kind), id, voter) >= amount,
                    RegistryError::NotEnoughDeposit,
                ),
                either(
                    check(has_appchain(v, id), RegistryError::AppchainNotFound),
                    check(
                        appchain_deposit(appchain_of(v, id), kind) >= amount,
                        RegistryError::NotEnoughDeposit,
                    ),
                ),
            ),
        ),
    )
}

/// The action returns `amount` of OCT tokens to the voter.
pub open spec fn returns_deposit(
    a: RegistryAction,
    id: Seq<char>,
    voter: Seq<char>,
    amount: u128,
    kind: VoteKind,
) -> bool {
    a matches RegistryAction::WithdrawDeposit { appchain_id, receiver_id, amount: x, kind: k }
        && appchain_id@ == id && receiver_id@ == voter && x == amount && k == kind
}

impl AppchainRegistry {
    /// Checks that a deposit of tokens can be taken: asset transfer is not paused
    /// and the tokens are OCT.
    pub fn check_deposit(&self, ctx: &CallContext) -> (r: Result<(), RegistryError>)
        ensures
            r == outcome(deposit_error(self@, ctx.predecessor_account_id@)),
    {
        if self.asset_transfer_is_paused {
            return Err(RegistryError::AssetTransferPaused);
        }
        if ctx.predecessor_account_id != self.oct_token {
            return Err(RegistryError::UnknownDepositAsset);
        }
        Ok(())
    }

    /// Records a deposit of the given kind.
    fn record_deposit(
        &mut self,
        i: usize,
        appchain_id: &AppchainId,
        voter: &String,
        kind: VoteKind,
        voter_amount: u128,
        appchain_amount: u128,
    )
        requires
            old(self).wf(),
            has_appchain(old(self)@, appchain_id@),
            i == appchain_index(old(self)@, appchain_id@),
        ensures
            final(self)@ == with_deposits(
                old(self)@,
                appchain_id@,
                voter@,
                kind,
                voter_amount,
                appchain_amount,
            ),
            final(self).wf(),
    {
        let ghost v = self@;
        let ghost b = v.appchains[i as int];
        match kind {
            VoteKind::Upvote => {
                self.upvote_deposits.set_amount(appchain_id.clone(), voter.clone(), voter_amount);
                self.appchains[i].upvote_deposit = appchain_amount;
                proof {
                    let nb = AppchainBasedataView { upvote_deposit: appchain_amount, ..b };
                    assert(self@.appchains =~= v.appchains.update(i as int, nb));
                    crate::registry::lemma_replace_keeps_wf(v, i as int, nb);
                }
            },
            VoteKind::Downvote => {
                self.downvote_deposits.set_amount(appchain_id.clone(), voter.clone(), voter_amount);
                self.appchains[i].downvote_deposit = appchain_amount;
                proof {
                    let nb = AppchainBasedataView { downvote_deposit: appchain_amount, ..b };
                    assert(self@.appchains =~= v.appchains.update(i as int, nb));
                    crate::registry::lemma_replace_keeps_wf(v, i as int, nb);
                }
            },
        }
    }

    /// The deposit of the given kind that `voter` holds for the appchain.
    fn voter_deposit(&self, appchain_id: &AppchainId, voter: &String, kind: VoteKind) -> (r: u128)
        ensures
            r == deposit_in(deposits_of_kind(self@, kind), appchain_id@, voter@),
    {
        match kind {
            VoteKind::Upvote => self.upvote_deposits.amount_of(appchain_id, voter),
            VoteKind::Downvote => self.downvote_deposits.amount_of(appchain_id, voter),
        }
    }

    /// Takes a deposit of OCT tokens sent with a vote for an appchain (the
    /// `ft_on_transfer` message to upvote or downvote). A vote for an appchain that
    /// is not in queue is not taken: the whole amount is handed back as unused.
    /// Returns the unused amount.
    pub fn deposit_vote(
        &mut self,
        ctx: &CallContext,
        sender_id: &String,
        amount: u128,
        appchain_id: &AppchainId,
        kind: VoteKind,
    ) -> (r: Result<u128, RegistryError>)
        requires
            old(self).wf(),
        ensures
            final(self).wf(),
            match r {
                Ok(unused) => vote_error(
                    old(self)@,
                    ctx.predecessor_account_id@,
                    sender_id@,
                    appchain_id@,
                    kind,
                    amount,
                ) is None && if vote_taken(old(self)@, appchain_id@) {
                    unused == 0 && final(self)@ == with_deposits(
                        old(self)@,
                        appchain_id@,
                        sender_id@,
                        kind,
                        (deposit_in(deposits_of_kind(old(self)@, kind), appchain_id@, sender_id@)
                            + amount) as u128,
                        (appchain_deposit(appchain_of(old(self)@, appchain_id@), kind)
                            + amount) as u128,
                    )
                } else {
                    unused == amount && final(self)@ == old(self)@
                },
                Err(e) => vote_error(
                    old(self)@,
                    ctx.predecessor_account_id@,
                    sender_id@,
                    appchain_id@,
                    kind,
                    amount,
                ) == Some(e) && final(self)@ == old(self)@,
            },
    {
        if self.asset_transfer_is_paused {
            return Err(RegistryError::AssetTransferPaused);
        }
        if ctx.predecessor_account_id != self.oct_token {
            return Err(RegistryError::UnknownDepositAsset);
        }
        let i = match self.find_appchain(appchain_id) {
            Some(i) => i,
            None => {
                return Ok(amount);
            },
        };
        if self.appchains[i].appchain_state != AppchainState::InQueue {
            return Ok(amount);
        }
        let held = self.voter_deposit(appchain_id, sender_id, kind);
        let total = match kind {
            VoteKind::Upvote => self.appchains[i].upvote_deposit,
            VoteKind::Downvote => self.appchains[i].downvote_deposit,
        };
        if held > u128::MAX - amount || total > u128::MAX - amount {
            return Err(RegistryError::ArithmeticOverflow);
        }
        self.record_deposit(i, appchain_id, sender_id, kind, held + amount, total + amount);
        Ok(0)
    }

    /// Withdraws a deposit of the given kind.
    fn withdraw_deposit(
        &mut self,
        ctx: &CallContext,
        appchain_id: &AppchainId,
        amount: u128,
        kind: VoteKind,
    ) -> (r: Result<RegistryAction, RegistryError>)
        requires
            old(self).wf(),
        ensures
            final(self).wf(),
            match r {
                Ok(a) => withdraw_error(
                    old(self)@,
                    ctx.predecessor_account_id@,
                    appchain_id@,
                    kind,
                    amount,
                ) is None && final(self)@ == with_deposits(
                    old(self)@,
                    appchain_id@,
                    ctx.predecessor_account_id@,
                    kind,
                    (deposit_in(
                        deposits_of_kind(old(self)@, kind),
                        appchain_id@,
                        ctx.predecessor_account_id@,
                    ) - amount) as u128,
                    (appchain_deposit(appchain_of(old(self)@, appchain_id@), kind)
                        - amount) as u128,
                ) && returns_deposit(a, appchain_id@, ctx.predecessor_account_id@, amount, kind),
                Err(e) => withdraw_error(
                    old(self)@,
                    ctx.predecessor_account_id@,
                    appchain_id@,
                    kind,
                    amount,
                ) == Some(e) && final(self)@ == old(self)@,
            },
    {
        if self.asset_transfer_is_paused {
            return Err(RegistryError::AssetTransferPaused);
        }
        if amount == 0 {
            return Err(RegistryError::ZeroWithdrawAmount);
        }
        let voter = &ctx.predecessor_account_id;
        let held = self.voter_deposit(appchain_id, voter, kind);
        if held < amount {
            return Err(RegistryError::NotEnoughDeposit);
        }
        let i = match self.find_appchain(appchain_id) {
            Some(i) => i,
            None => {
                return Err(RegistryError::AppchainNotFound);
            },
        };
        let total = match kind {
            VoteKind::Upvote => self.appchains[i].upvote_deposit,
            VoteKind::Downvote => self.appchains[i].downvote_deposit,
        };
        if total < amount {
            return Err(RegistryError::NotEnoughDeposit);
        }
        self.record_deposit(i, appchain_id, voter, kind, held - amount, total - amount);
        Ok(
            RegistryAction::WithdrawDeposit {
                appchain_id: appchain_id.clone(),
                receiver_id: voter.clone(),
                amount,
                kind,
            },
        )
    }
}

impl VoterActions for AppchainRegistry {
    fn withdraw_upvote_deposit_of(&mut self, ctx: &CallContext, appchain_id: &AppchainId, amount: u128) -> (r:
        Result<RegistryAction, RegistryError>)
        ensures
            match r {
                Ok(a) => withdraw_error(
                    old(self)@,
                    ctx.predecessor_account_id@,
                    appchain_id@,
                    VoteKind::Upvote,
                    amount,
                ) is None && final(self)@ == with_deposits(
                    old(self)@,
                    appchain_id@,
                    ctx.predecessor_account_id@,
                    VoteKind::Upvote,
                    (deposit_in(old(self)@.upvote_deposits, appchain_id@, ctx.predecessor_account_id@)
                        - amount) as u128,
                    (appchain_of(old(self)@, appchain_id@).upvote_deposit - amount) as u128,
                ) && returns_deposit(
                    a,
                    appchain_id@,
                    ctx.predecessor_account_id@,
                    amount,
                    VoteKind::Upvote,
                ),
                Err(e) => withdraw_error(
                    old(self)@,
                    ctx.predecessor_account_id@,
                    appchain_id@,
                    VoteKind::Upvote,
                    amount,
                ) == Some(e) && final(self)@ == old(self)@,
            },
    {
        self.withdraw_deposit(ctx, appchain_id, amount, VoteKind::Upvote)
    }

    fn withdraw_downvote_deposit_of(
        &mut self,
        ctx: &CallContext,
        appchain_id: &AppchainId,
        amount: u128,
    ) -> (r: Result<RegistryAction, RegistryError>)
        ensures
            match r {
                Ok(a) => withdraw_error(
                    old(self)@,
                    ctx.predecessor_account_id@,
                    appchain_id@,
                    VoteKind::Downvote,
                    amount,
                ) is None && final(self)@ == with_deposits(
                    old(self)@,
                    appchain_id@,
                    ctx.predecessor_account_id@,
                    VoteKind::Downvote,
                    (deposit_in(
                        old(self)@.downvote_deposits,
                        appchain_id@,
                        ctx.predecessor_account_id@,
                    ) - amount) as u128,
                    (appchain_of(old(self)@, appchain_id@).downvote_deposit - amount) as u128,
                ) && returns_deposit(
                    a,
                    appchain_id@,
                    ctx.predecessor_account_id@,
                    amount,
                    VoteKind::Downvote,
                ),
                Err(e) => withdraw_error(
                    old(self)@,
                    ctx.predecessor_account_id@,
                    appchain_id@,
                    VoteKind::Downvote,
                    amount,
                ) == Some(e) && final(self)@ == old(self)@,
            },
    {
        self.withdraw_deposit(ctx, appchain_id, amount, VoteKind::Downvote)
    }
}

/// The counting interval in nanoseconds.
pub open spec fn counting_interval_ns(v: RegistryView) -> int {
    v.registry_settings.counting_interval_in_seconds * NANO_SECONDS_MULTIPLE
}

/// Whether a counting is due at time `now`: more than the counting interval has
/// passed since the last counting (the interval in nanoseconds fitting a `u64`).
pub open spec fn counting_due(v: RegistryView, now: u64) -> bool {
    &&& counting_interval_ns(v) <= u64::MAX
    &&& now >= v.time_of_last_count_voting_score
    &&& now - v.time_of_last_count_voting_score > counting_interval_ns(v)
}

/// Some appchain is in queue.
pub open spec fn any_in_queue(apps: Seq<AppchainBasedataView>) -> bool {
    exists|j: int| 0 <= j < apps.len() && #[trigger] apps[j].appchain_state == AppchainState::InQueue
}

/// The score of every appchain in queue can be counted without overflow.
pub open spec fn counts_fit(apps: Seq<AppchainBasedataView>) -> bool {
    forall|j: int|
        0 <= j < apps.len() && #[trigger] apps[j].appchain_state == AppchainState::InQueue
            ==> counted_voting_score(apps[j].voting_score, apps[j].upvote_deposit, apps[j].downvote_deposit)
            is Some
}

/// The refusal of a counting of voting scores.
pub open spec fn count_error(v: RegistryView, caller: Seq<char>, now: u64) -> Option<RegistryError> {
    either(
        check(v.registry_roles.operator_of_counting_voting_score.len() > 0, RegistryError::OperatorNotSet),
        either(
            check(caller == v.registry_roles.operator_of_counting_voting_score, RegistryError::NotOperator),
            either(
                check(counting_due(v, now), RegistryError::CountingTooFrequent),
                either(
                    check(any_in_queue(v.appchains), RegistryError::NoAppchainInQueue),
                    check(counts_fit(v.appchains), RegistryError::ArithmeticOverflow),
                ),
            ),
        ),
    )
}

/// The appchain once its score is counted: an appchain in queue has its deposits
/// added to its score.
pub open spec fn counted_appchain(b: AppchainBasedataView) -> AppchainBasedataView {
    if b.appchain_state == AppchainState::InQueue {
        AppchainBasedataView {
            voting_score: counted_voting_score(b.voting_score, b.upvote_deposit, b.downvote_deposit)->0,
            ..b
        }
    } else {
        b
    }
}

/// All appchains once their scores are counted.
pub open spec fn counted_appchains(apps: Seq<AppchainBasedataView>) -> Seq<AppchainBasedataView> {
    Seq::new(apps.len(), |j: int| counted_appchain(apps[j]))
}

/// The appchain at position `j` is in queue with a score no other appchain in
/// queue exceeds.
pub open spec fn is_top_candidate(apps: Seq<AppchainBasedataView>, j: int) -> bool {
    &&& 0 <= j < apps.len()
    &&& apps[j].appchain_state == AppchainState::InQueue
    &&& forall|k: int|
        0 <= k < apps.len() && #[trigger] apps[k].appchain_state == AppchainState::InQueue
            ==> apps[k].voting_score <= apps[j].voting_score
}

/// The appchain at position `m` is the first top candidate.
pub open spec fn is_first_top(apps: Seq<AppchainBasedataView>, m: int) -> bool {
    &&& is_top_candidate(apps, m)
    &&& forall|k: int| 0 <= k < m ==> !#[trigger] is_top_candidate(apps, k)
}

/// The previous top of the queue is still a top candidate after counting.
pub open spec fn previous_top_stays(v: RegistryView, apps: Seq<AppchainBasedataView>) -> bool {
    has_appchain(v, v.top_appchain_id_in_queue) && is_top_candidate(
        apps,
        appchain_index(v, v.top_appchain_id_in_queue),
    )
}

/// The registry after counting: scores counted, the top of the queue chosen and
/// the time of counting set to `now` rounded down to the counting interval.
/// The top is the previous top where that is still a top candidate, else the
/// first top candidate.
pub open spec fn counted(v: RegistryView, now: u64, w: RegistryView) -> bool {
    let apps = counted_appchains(v.appchains);
    &&& w == (RegistryView {
        appchains: apps,
        top_appchain_id_in_queue: w.top_appchain_id_in_queue,
        time_of_last_count_voting_score: (now - (now as int) % counting_interval_ns(v)) as u64,
        ..v
    })
    &&& previous_top_stays(v, apps) ==> w.top_appchain_id_in_queue == v.top_appchain_id_in_queue
    &&& !previous_top_stays(v, apps) ==> exists|m: int|
        is_first_top(apps, m) && w.top_appchain_id_in_queue == apps[m].appchain_id
}

impl AppchainRegistry {
    /// Finds whether some appchain is in queue, and whether every score can be
    /// counted.
    fn scan_queue(&self) -> (r: Result<(), RegistryError>)
        ensures
            r == outcome(
                either(
                    check(any_in_queue(self@.appchains), RegistryError::NoAppchainInQueue),
                    check(counts_fit(self@.appchains), RegistryError::ArithmeticOverflow),
                ),
            ),
    {
        let ghost v = self@;
        let n = self.appchains.len();
        let mut found = false;
        let mut overflow = false;
        let mut j: usize = 0;
        while j < n
            invariant
                self@ == v,
                n == v.appchains.len(),
                j <= n,
                found == exists|k: int| 0 <= k < j && #[trigger] v.appchains[k].appchain_state
                    == AppchainState::InQueue,
                overflow == exists|k: int|
                    0 <= k < j && #[trigger] v.appchains[k].appchain_state == AppchainState::InQueue
                        && counted_voting_score(
                        v.appchains[k].voting_score,
                        v.appchains[k].upvote_deposit,
                        v.appchains[k].downvote_deposit,
                    ) is None,
            decreases n - j,
        {
            let b = &self.appchains[j];
            assert(b@ == v.appchains[j as int]);
            if b.appchain_state == AppchainState::InQueue {
                found = true;
                if checked_counted_score(b.voting_score, b.upvote_deposit, b.downvote_deposit).is_none() {
                    overflow = true;
                }
            }
            proof {
                assert(found == exists|k: int| 0 <= k < j + 1 && #[trigger] v.appchains[k].appchain_state
                    == AppchainState::InQueue) by {
                    if v.appchains[j as int].appchain_state == AppchainState::InQueue {
                        assert(0 <= j < j + 1);
                    }
                }
            }
            j = j + 1;
        }
        if !found {
            return Err(RegistryError::NoAppchainInQueue);
        }
        if overflow {
            return Err(RegistryError::ArithmeticOverflow);
        }
        Ok(())
    }

    /// Counts the score of every appchain in queue.
    fn apply_counts(&mut self)
        requires
            old(self).wf(),
            counts_fit(old(self)@.appchains),
        ensures
            final(self).wf(),
            final(self)@ == (RegistryView { appchains: counted_appchains(old(self)@.appchains), ..old(self)@ }),
    {
        let ghost v = self@;
        let n = self.appchains.len();
        let mut j: usize = 0;
        while j < n
            invariant
                registry_wf(v),
                n == v.appchains.len(),
                j <= n,
                counts_fit(v.appchains),
                self@ == (RegistryView { appchains: self@.appchains, ..v }),
                self@.appchains.len() == n,
                forall|k: int| 0 <= k < j ==> #[trigger] self@.appchains[k] == counted_appchain(v.appchains[k]),
                forall|k: int| j <= k < n ==> #[trigger] self@.appchains[k] == v.appchains[k],
            decreases n - j,
        {
            let ghost before = self.appchains@;
            let ghost before_view = self@.appchains;
            assert(self@.appchains[j as int] == v.appchains[j as int]);
            if self.appchains[j].appchain_state == AppchainState::InQueue {
                assert(v.appchains[j as int].appchain_state == AppchainState::InQueue);
                self.appchains[j].count_voting_score();
            }
            proof {
                assert(self.appchains@ =~= before.update(j as int, self.appchains@[j as int]));
                assert(self@.appchains[j as int] == counted_appchain(v.appchains[j as int]));
                assert forall|k: int| j < k < n implies #[trigger] self@.appchains[k] == v.appchains[k] by {
                    assert(self@.appchains[k] == before_view[k]);
                }
                assert forall|k: int| 0 <= k < j implies #[trigger] self@.appchains[k] == counted_appchain(v.appchains[k]) by {
                    assert(self@.appchains[k] == before_view[k]);
                }
            }
            j = j + 1;
        }
        let ghost apps = counted_appchains(v.appchains);
        assert(self@.appchains =~= apps);
        proof {
            assert forall|a: int, c: int| 0 <= a < c < apps.len() implies #[trigger] apps[a].appchain_id
                != #[trigger] apps[c].appchain_id by {
                assert(apps[a].appchain_id == v.appchains[a].appchain_id);
                assert(apps[c].appchain_id == v.appchains[c].appchain_id);
            }
        }
    }

    /// The position of the top of the queue: the previous top where it is in queue
    /// with a score no appchain in queue exceeds, else the first appchain in queue
    /// with such a score.
    fn select_top(&self) -> (r: usize)
        requires
            self.wf(),
            any_in_queue(self@.appchains),
        ensures
            r < self@.appchains.len(),
            is_top_candidate(self@.appchains, r as int),
            previous_top_stays(self@, self@.appchains) ==> r == appchain_index(
                self@,
                self@.top_appchain_id_in_queue,
            ),
            !previous_top_stays(self@, self@.appchains) ==> is_first_top(self@.appchains, r as int),
    {
        let ghost w = self@;
        let ghost apps = w.appchains;
        let n = self.appchains.len();
        let prev = match self.find_appchain(&self.top_appchain_id_in_queue) {
            Some(p) => {
                if self.appchains[p].appchain_state == AppchainState::InQueue {
                    Some(p)
                } else {
                    None
                }
            },
            None => None,
        };
        let mut cand: Option<usize> = prev;
        let ghost mut from_prev: bool = prev is Some;
        let mut j: usize = 0;
        while j < n
            invariant
                self@ == w,
                w.appchains == apps,
                n == apps.len(),
                j <= n,
                prev matches Some(p) ==> p < n && apps[p as int].appchain_state == AppchainState::InQueue
                    && p == appchain_index(w, w.top_appchain_id_in_queue)
                    && has_appchain(w, w.top_appchain_id_in_queue),
                prev is None ==> !previous_top_stays(w, apps),
                cand is None ==> prev is None && forall|k: int|
                    0 <= k < j ==> #[trigger] apps[k].appchain_state != AppchainState::InQueue,
                cand matches Some(c) ==> c < n && apps[c as int].appchain_state == AppchainState::InQueue
                    && forall|k: int|
                    0 <= k < j && #[trigger] apps[k].appchain_state == AppchainState::InQueue
                        ==> apps[k].voting_score <= apps[c as int].voting_score,
                from_prev ==> cand == prev,
                !from_prev ==> (cand matches Some(c) ==> forall|k: int|
                    0 <= k < c && #[trigger] apps[k].appchain_state == AppchainState::InQueue
                        ==> apps[k].voting_score < apps[c as int].voting_score),
                !from_prev ==> (cand matches Some(c) ==> (prev matches Some(p) ==> apps[p as int].voting_score
                    < apps[c as int].voting_score)),
                !from_prev ==> (cand matches Some(c) ==> c < j),
                prev is Some ==> cand is Some,
            decreases n - j,
        {
            let b = &self.appchains[j];
            assert(b@ == apps[j as int]);
            if b.appchain_state == AppchainState::InQueue {
                let better = match cand {
                    Some(c) => b.voting_score > self.appchains[c].voting_score,
                    None => true,
                };
                if better {
                    cand = Some(j);
                    proof {
                        from_prev = false;
                    }
                }
            }
            j = j + 1;
        }
        match cand {
            Some(c) => {
                proof {
                    assert(is_top_candidate(apps, c as int));
                    if from_prev {
                        assert(previous_top_stays(w, apps));
                    } else {
                        assert(is_first_top(apps, c as int));
                        match prev {
                            Some(p) => {
                                assert(!is_top_candidate(apps, p as int));
                            },
                            None => {},
                        }
                        assert(!previous_top_stays(w, apps));
                    }
                }
                c
            },
            None => {
                proof {
                    let k = choose|k: int| 0 <= k < apps.len() && #[trigger] apps[k].appchain_state
                        == AppchainState::InQueue;
                }
                0
            },
        }
    }

    /// Count the voting score of every appchain in queue and pick the top of the
    /// queue: the appchain in queue with the highest voting score.
    pub fn count_voting_score(&mut self, ctx: &CallContext) -> (r: Result<(), RegistryError>)
        requires
            old(self).wf(),
        ensures
            final(self).wf(),
            match r {
                Ok(_) => count_error(old(self)@, ctx.predecessor_account_id@, ctx.block_timestamp)
                    is None && counted(old(self)@, ctx.block_timestamp, final(self)@),
                Err(e) => count_error(old(self)@, ctx.predecessor_account_id@, ctx.block_timestamp)
                    == Some(e) && final(self)@ == old(self)@,
            },
    {
        if self.registry_roles.operator_of_counting_voting_score.as_str().is_empty() {
            return Err(RegistryError::OperatorNotSet);
        }
        if ctx.predecessor_account_id != self.registry_roles.operator_of_counting_voting_score {
            return Err(RegistryError::NotOperator);
        }
        let now = ctx.block_timestamp;
        let last = self.time_of_last_count_voting_score;
        let interval = match self.registry_settings.counting_interval_in_seconds.checked_mul(
            NANO_SECONDS_MULTIPLE,
        ) {
            Some(x) => x,
            None => {
                return Err(RegistryError::CountingTooFrequent);
            },
        };
        if now < last || now - last <= interval {
            return Err(RegistryError::CountingTooFrequent);
        }
        self.scan_queue()?;
        let ghost v = self@;
        self.apply_counts();
        proof {
            let apps = counted_appchains(v.appchains);
            let k = choose|k: int| 0 <= k < v.appchains.len() && #[trigger] v.appchains[k].appchain_state
                == AppchainState::InQueue;
            assert(apps[k].appchain_state == AppchainState::InQueue);
            lemma_same_ids_same_index(v, self@, v.top_appchain_id_in_queue);
        }
        let c = self.select_top();
        let top = self.appchains[c].appchain_id.clone();
        self.top_appchain_id_in_queue = top;
        assert(interval > 0);
        self.time_of_last_count_voting_score = now - now % interval;
        Ok(())
    }
}

/// Two registries whose appchains have the same ids in the same order find an id
/// at the same place.
pub proof fn lemma_same_ids_same_index(v: RegistryView, w: RegistryView, id: Seq<char>)
    requires
        registry_wf(v),
        v.appchains.len() == w.appchains.len(),
        forall|k: int| 0 <= k < v.appchains.len() ==> #[trigger] w.appchains[k].appchain_id == v.appchains[k].appchain_id,
    ensures
        has_appchain(w, id) == has_appchain(v, id),
        has_appchain(v, id) ==> appchain_index(w, id) == appchain_index(v, id),
{
    if has_appchain(v, id) {
        let i = appchain_index(v, id);
        assert(w.appchains[i].appchain_id == id);
        let i2 = appchain_index(w, id);
        assert(v.appchains[i2].appchain_id == id);
        assert(i == i2) by {
            if i < i2 {
                assert(v.appchains[i].appchain_id != v.appchains[i2].appchain_id);
            } else if i > i2 {
                assert(v.appchains[i2].appchain_id != v.appchains[i].appchain_id);
            }
        }
    }
    if has_appchain(w, id) {
        let i2 = appchain_index(w, id);
        assert(v.appchains[i2].appchain_id == id);
    }
}

} // verus!
