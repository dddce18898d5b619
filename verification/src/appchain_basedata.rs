//! The record that the registry keeps of each appchain.

use vstd::prelude::*;

use crate::metadata::{clone_opt_string, opt_text, AppchainMetadata, AppchainMetadataView};
use crate::types::{AppchainId, AppchainState};

verus! {

/// `x as i128` for a `u128`: the same value when it fits, else wrapped around.
pub open spec fn wrapping_i128(x: u128) -> int {
    if x <= i128::MAX {
        x as int
    } else {
        x - 0x1_0000_0000_0000_0000_0000_0000_0000_0000
    }
}

/// Whether `x` fits in an `i128`.
pub open spec fn fits_i128(x: int) -> bool {
    i128::MIN <= x <= i128::MAX
}

/// The voting score after counting the current deposits: the score plus the
/// upvote deposit less the downvote deposit (each read as `i128`), or `None`
/// where the arithmetic overflows.
pub open spec fn counted_voting_score(score: i128, upvote: u128, downvote: u128) -> Option<i128> {
    let delta = wrapping_i128(upvote) - wrapping_i128(downvote);
    if !fits_i128(delta) || !fits_i128(score + delta) {
        None
    } else {
        Some((score + delta) as i128)
    }
}

/// Integer division rounding toward zero, as Rust's `/` does.
pub open spec fn div_toward_zero(a: int, d: int) -> int {
    if a >= 0 {
        a / d
    } else {
        -((-a) / d)
    }
}

/// The voting score less `percent` percent of it (the share rounded toward zero),
/// or `None` where `score * percent` overflows.
pub open spec fn reduced_voting_score(score: i128, percent: u16) -> Option<i128> {
    let share = score * percent;
    if !fits_i128(share) {
        None
    } else {
        Some((score - div_toward_zero(share, 100)) as i128)
    }
}

/// `x as i128`.
pub fn to_i128_wrapping(x: u128) -> (r: i128)
    ensures
        r == wrapping_i128(x),
{
    if x <= 0x7fff_ffff_ffff_ffff_ffff_ffff_ffff_ffffu128 {
        x as i128
    } else {
        let low: u128 = x - 0x8000_0000_0000_0000_0000_0000_0000_0000u128;
        (low as i128) + i128::MIN
    }
}

/// Computes [`counted_voting_score`].
pub fn checked_counted_score(score: i128, upvote: u128, downvote: u128) -> (r: Option<i128>)
    ensures
        r == counted_voting_score(score, upvote, downvote),
{
    let up = to_i128_wrapping(upvote);
    let down = to_i128_wrapping(downvote);
    match up.checked_sub(down) {
        Some(delta) => score.checked_add(delta),
        None => None,
    }
}

/// Computes [`reduced_voting_score`].
pub fn checked_reduced_score(score: i128, percent: u16) -> (r: Option<i128>)
    requires
        percent <= 100,
    ensures
        r == reduced_voting_score(score, percent),
{
    match score.checked_mul(percent as i128) {
        Some(share) => {
            match share.checked_div(100) {
                Some(part) => {
                    proof {
                        lemma_reduced_bounds(score as int, percent as int);
                    }
                    Some(score - part)
                },
                None => None,
            }
        },
        None => None,
    }
}

/// Taking away at most all of the score stays between zero and the score.
pub proof fn lemma_reduced_bounds(score: int, percent: int)
    requires
        0 <= percent <= 100,
    ensures
        score >= 0 ==> 0 <= score - div_toward_zero(score * percent, 100) <= score,
        score < 0 ==> score <= score - div_toward_zero(score * percent, 100) <= 0,
{
    if score >= 0 {
        assert(0 <= score * percent <= score * 100) by (nonlinear_arith)
            requires
                score >= 0,
                0 <= percent <= 100,
        ;
        assert((score * percent) / 100 <= score) by (nonlinear_arith)
            requires
                0 <= score * percent <= score * 100,
        ;
        assert(0 <= (score * percent) / 100) by (nonlinear_arith)
            requires
                0 <= score * percent,
        ;
    } else {
        assert(0 <= -(score * percent) <= -score * 100) by (nonlinear_arith)
            requires
                score < 0,
                0 <= percent <= 100,
        ;
        assert((-(score * percent)) / 100 <= -score) by (nonlinear_arith)
            requires
                0 <= -(score * percent) <= -score * 100,
        ;
        assert(0 <= (-(score * percent)) / 100) by (nonlinear_arith)
            requires
                0 <= -(score * percent),
        ;
    }
}

/// Appchain basedata
pub struct AppchainBasedata {
    pub appchain_id: AppchainId,
    pub evm_chain_id: Option<u64>,
    pub appchain_metadata: AppchainMetadata,
    pub appchain_anchor: Option<String>,
    pub appchain_anchor_code: Vec<u8>,
    pub appchain_owner: String,
    pub register_deposit: u128,
    pub appchain_state: AppchainState,
    pub upvote_deposit: u128,
    pub downvote_deposit: u128,
    pub voting_score: i128,
    pub registered_time: u64,
    pub go_live_time: u64,
    pub validator_count: u32,
    pub total_stake: u128,
}

/// The content of [`AppchainBasedata`].
pub struct AppchainBasedataView {
    pub appchain_id: Seq<char>,
    pub evm_chain_id: Option<u64>,
    pub appchain_metadata: AppchainMetadataView,
    pub appchain_anchor: Option<Seq<char>>,
    pub appchain_anchor_code: Seq<u8>,
    pub appchain_owner: Seq<char>,
    pub register_deposit: u128,
    pub appchain_state: AppchainState,
    pub upvote_deposit: u128,
    pub downvote_deposit: u128,
    pub voting_score: i128,
    pub registered_time: u64,
    pub go_live_time: u64,
    pub validator_count: u32,
    pub total_stake: u128,
}

impl View for AppchainBasedata {
    type V = AppchainBasedataView;

    open spec fn view(&self) -> AppchainBasedataView {
        AppchainBasedataView {
            appchain_id: self.appchain_id@,
            evm_chain_id: self.evm_chain_id,
            appchain_metadata: self.appchain_metadata@,
            appchain_anchor: opt_text(self.appchain_anchor),
            appchain_anchor_code: self.appchain_anchor_code@,
            appchain_owner: self.appchain_owner@,
            register_deposit: self.register_deposit,
            appchain_state: self.appchain_state,
            upvote_deposit: self.upvote_deposit,
            downvote_deposit: self.downvote_deposit,
            voting_score: self.voting_score,
            registered_time: self.registered_time,
            go_live_time: self.go_live_time,
            validator_count: self.validator_count,
            total_stake: self.total_stake,
        }
    }
}

/// Appchain status: what the registry shows of an appchain.
pub struct AppchainStatus {
    pub appchain_id: AppchainId,
    pub evm_chain_id: Option<u64>,
    pub appchain_metadata: AppchainMetadata,
    pub appchain_anchor: Option<String>,
    pub appchain_owner: String,
    pub register_deposit: u128,
    pub appchain_state: AppchainState,
    pub upvote_deposit: u128,
    pub downvote_deposit: u128,
    pub voting_score: i128,
    pub registered_time: u64,
    pub go_live_time: u64,
    pub validator_count: u32,
    pub total_stake: u128,
}

/// `status` shows the fields of `basedata` (all but the anchor code).
pub open spec fn status_of(status: &AppchainStatus, basedata: AppchainBasedataView) -> bool {
    &&& status.appchain_id@ == basedata.appchain_id
    &&& status.evm_chain_id == basedata.evm_chain_id
    &&& status.appchain_metadata@ == basedata.appchain_metadata
    &&& opt_text(status.appchain_anchor) == basedata.appchain_anchor
    &&& status.appchain_owner@ == basedata.appchain_owner
    &&& status.register_deposit == basedata.register_deposit
    &&& status.appchain_state == basedata.appchain_state
    &&& status.upvote_deposit == basedata.upvote_deposit
    &&& status.downvote_deposit == basedata.downvote_deposit
    &&& status.voting_score == basedata.voting_score
    &&& status.registered_time == basedata.registered_time
    &&& status.go_live_time == basedata.go_live_time
    &&& status.validator_count == basedata.validator_count
    &&& status.total_stake == basedata.total_stake
}

impl AppchainBasedata {
    /// Return a new instance of AppchainBasedata with the given parameters
    pub fn new(
        appchain_id: AppchainId,
        evm_chain_id: Option<u64>,
        appchain_metadata: AppchainMetadata,
        appchain_owner: String,
        register_deposit: u128,
        registered_time: u64,
    ) -> (r: Self)
        ensures
            r@ == (AppchainBasedataView {
                appchain_id: appchain_id@,
                evm_chain_id,
                appchain_metadata: appchain_metadata@,
                appchain_anchor: None,
                appchain_anchor_code: Seq::empty(),
                appchain_owner: appchain_owner@,
                register_deposit,
                appchain_state: AppchainState::Registered,
                upvote_deposit: 0,
                downvote_deposit: 0,
                voting_score: 0,
                registered_time,
                go_live_time: 0,
                validator_count: 0,
                total_stake: 0,
            }),
    {
        AppchainBasedata {
            appchain_id,
            evm_chain_id,
            appchain_metadata,
            appchain_anchor: None,
            appchain_anchor_code: Vec::new(),
            appchain_owner,
            register_deposit,
            appchain_state: AppchainState::Registered,
            upvote_deposit: 0,
            downvote_deposit: 0,
            voting_score: 0,
            registered_time,
            go_live_time: 0,
            validator_count: 0,
            total_stake: 0,
        }
    }

    /// Get appchain id
    pub fn id(&self) -> (r: &AppchainId)
        ensures
            r@ == self.appchain_id@,
    {
        &self.appchain_id
    }

    /// Get metadata
    pub fn metadata(&self) -> (r: &AppchainMetadata)
        ensures
            r@ == self.appchain_metadata@,
    {
        &self.appchain_metadata
    }

    /// Get acount id of anchor
    pub fn anchor(&self) -> (r: Option<String>)
        ensures
            r == self.appchain_anchor,
    {
        clone_opt_string(&self.appchain_anchor)
    }

    /// Get code of anchor
    pub fn anchor_code(&self) -> (r: Vec<u8>)
        ensures
            r@ == self.appchain_anchor_code@,
    {
        let r = self.appchain_anchor_code.clone();
        assert(r@ =~= self.appchain_anchor_code@);
        r
    }

    /// Get account id of owner
    pub fn owner(&self) -> (r: &String)
        ensures
            r@ == self.appchain_owner@,
    {
        &self.appchain_owner
    }

    /// Get initial deposit
    pub fn register_deposit(&self) -> (r: u128)
        ensures
            r == self.register_deposit,
    {
        self.register_deposit
    }

    /// Get state
    pub fn state(&self) -> (r: AppchainState)
        ensures
            r == self.appchain_state,
    {
        self.appchain_state
    }

    /// Get upvote deposit
    pub fn upvote_deposit(&self) -> (r: u128)
        ensures
            r == self.upvote_deposit,
    {
        self.upvote_deposit
    }

    /// Get downvote deposit
    pub fn downvote_deposit(&self) -> (r: u128)
        ensures
            r == self.downvote_deposit,
    {
        self.downvote_deposit
    }

    /// Get voting score
    pub fn voting_score(&self) -> (r: i128)
        ensures
            r == self.voting_score,
    {
        self.voting_score
    }

    /// Get full status
    pub fn status(&self) -> (r: AppchainStatus)
        ensures
            status_of(&r, self@),
    {
        AppchainStatus {
            appchain_id: self.appchain_id.clone(),
            evm_chain_id: self.evm_chain_id,
            appchain_metadata: self.appchain_metadata.copy(),
            appchain_anchor: clone_opt_string(&self.appchain_anchor),
            appchain_owner: self.appchain_owner.clone(),
            register_deposit: self.register_deposit,
            appchain_state: self.appchain_state,
            upvote_deposit: self.upvote_deposit,
            downvote_deposit: self.downvote_deposit,
            voting_score: self.voting_score,
            registered_time: self.registered_time,
            go_live_time: self.go_live_time,
            validator_count: self.validator_count,
            total_stake: self.total_stake,
        }
    }

    /// Change owner
    pub fn change_owner(&mut self, new_owner: String)
        requires
            new_owner@ != old(self).appchain_owner@,
        ensures
            final(self)@ == (AppchainBasedataView { appchain_owner: new_owner@, ..old(self)@ }),
    {
        self.appchain_owner = new_owner;
    }

    /// Set initial deposit
    pub fn set_initial_deposit(&mut self, deposit: u128)
        ensures
            final(self)@ == (AppchainBasedataView { register_deposit: deposit, ..old(self)@ }),
    {
        self.register_deposit = deposit;
    }

    /// Set code of anchor
    pub fn set_anchor_code(&mut self, code: Vec<u8>)
        ensures
            final(self)@ == (AppchainBasedataView { appchain_anchor_code: code@, ..old(self)@ }),
    {
        self.appchain_anchor_code = code;
    }

    /// Set account of anchor
    pub fn set_anchor_account(&mut self, account: String)
        ensures
            final(self)@ == (AppchainBasedataView {
                appchain_anchor: Some(account@),
                ..old(self)@
            }),
    {
        self.appchain_anchor = Some(account);
    }

    /// Change state
    pub fn change_state(&mut self, new_state: AppchainState)
        requires
            new_state != old(self).appchain_state,
        ensures
            final(self)@ == (AppchainBasedataView { appchain_state: new_state, ..old(self)@ }),
    {
        self.appchain_state = new_state;
    }

    /// Set state
    pub fn set_state(&mut self, new_state: AppchainState)
        ensures
            final(self)@ == (AppchainBasedataView { appchain_state: new_state, ..old(self)@ }),
    {
        self.appchain_state = new_state;
    }

    /// Set metadata
    pub fn set_metadata(&mut self, metadata: AppchainMetadata)
        ensures
            final(self)@ == (AppchainBasedataView { appchain_metadata: metadata@, ..old(self)@ }),
    {
        self.appchain_metadata = metadata;
    }

    /// Increase upvote deposit
    pub fn increase_upvote_deposit(&mut self, value: u128)
        requires
            old(self).upvote_deposit + value <= u128::MAX,
        ensures
            final(self)@ == (AppchainBasedataView {
                upvote_deposit: (old(self).upvote_deposit + value) as u128,
                ..old(self)@
            }),
    {
        self.upvote_deposit = self.upvote_deposit + value;
    }

    /// Decrease upvote deposit
    pub fn decrease_upvote_deposit(&mut self, value: u128)
        requires
            value <= old(self).upvote_deposit,
        ensures
            final(self)@ == (AppchainBasedataView {
                upvote_deposit: (old(self).upvote_deposit - value) as u128,
                ..old(self)@
            }),
    {
        self.upvote_deposit = self.upvote_deposit - value;
    }

    /// Increase downvote deposit
    pub fn increase_downvote_deposit(&mut self, value: u128)
        requires
            old(self).downvote_deposit + value <= u128::MAX,
        ensures
            final(self)@ == (AppchainBasedataView {
                downvote_deposit: (old(self).downvote_deposit + value) as u128,
                ..old(self)@
            }),
    {
        self.downvote_deposit = self.downvote_deposit + value;
    }

    /// Decrease downvote deposit
    pub fn decrease_downvote_deposit(&mut self, value: u128)
        requires
            value <= old(self).downvote_deposit,
        ensures
            final(self)@ == (AppchainBasedataView {
                downvote_deposit: (old(self).downvote_deposit - value) as u128,
                ..old(self)@
            }),
    {
        self.downvote_deposit = self.downvote_deposit - value;
    }

    /// Count voting score: add the upvote deposit and take away the downvote deposit.
    pub fn count_voting_score(&mut self)
        requires
            counted_voting_score(
                old(self).voting_score,
                old(self).upvote_deposit,
                old(self).downvote_deposit,
            ) is Some,
        ensures
            final(self)@ == (AppchainBasedataView {
                voting_score: counted_voting_score(
                    old(self).voting_score,
                    old(self).upvote_deposit,
                    old(self).downvote_deposit,
                )->0,
                ..old(self)@
            }),
    {
        match checked_counted_score(self.voting_score, self.upvote_deposit, self.downvote_deposit) {
            Some(score) => {
                self.voting_score = score;
            },
            None => {},
        }
    }

    /// Reduce voting score by the given percent
    pub fn reduce_voting_score_by_percent(&mut self, percent: u16)
        requires
            percent <= 100,
            reduced_voting_score(old(self).voting_score, percent) is Some,
        ensures
            final(self)@ == (AppchainBasedataView {
                voting_score: reduced_voting_score(old(self).voting_score, percent)->0,
                ..old(self)@
            }),
    {
        match checked_reduced_score(self.voting_score, percent) {
            Some(score) => {
                self.voting_score = score;
            },
            None => {},
        }
    }

    /// Record the staking status that the anchor reports.
    pub fn sync_staking_status(&mut self, validator_count: u32, total_stake: u128)
        ensures
            final(self)@ == (AppchainBasedataView { validator_count, total_stake, ..old(self)@ }),
    {
        self.validator_count = validator_count;
        self.total_stake = total_stake;
    }

    /// Deploy anchor
    pub fn deploy_anchor(&mut self)
        ensures
            final(self)@ == old(self)@,
    {
    }
}

} // verus!
