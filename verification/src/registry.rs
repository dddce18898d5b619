//! The registry's state, the context of a request, and what a request can end in.

use vstd::prelude::*;

use crate::accounts::is_public_key_bytes;
use crate::appchain_basedata::{AppchainBasedata, AppchainBasedataView};
use crate::deposits::{deposits_positive, VoteDeposits};

verus! {

/// Initial balance for the AppchainAnchor contract to cover storage and related.
pub const APPCHAIN_ANCHOR_INIT_BALANCE: u128 = 26_000_000_000_000_000_000_000_000;

/// Gas (in TGas) for the resolver of a withdrawal.
pub const T_GAS_FOR_RESOLVER_FUNCTION: u64 = 10;

/// Gas (in TGas) for the transfer of OCT tokens.
pub const T_GAS_FOR_FT_TRANSFER: u64 = 20;

/// Gas (in TGas) for a call of a function of an anchor contract.
pub const T_GAS_FOR_CALLING_ANCHOR_FUNCTION: u64 = 150;

/// The number of the smallest units in one OCT token.
pub const OCT_DECIMALS_BASE: u128 = 1000_000_000_000_000_000;

/// Default register deposit amount, in OCT tokens.
pub const DEFAULT_REGISTER_DEPOSIT: u128 = 1000;

/// Multiple of nano seconds for a second
pub const NANO_SECONDS_MULTIPLE: u64 = 1_000_000_000;

/// Default staging duration of contract code for upgrade, in the unit of block
/// timestamps: code staged now may be given a deployment time just beyond it.
pub const DEFAULT_CONTRACT_CODE_STAGING_DURATION: u64 = 3600 * 24;

/// The seconds of a day.
pub const SECONDS_OF_A_DAY: u64 = 86400;

/// Default percent by which the voting scores of appchains still in queue are
/// reduced when the voting is concluded.
pub const DEFAULT_VOTING_RESULT_REDUCTION_PERCENT: u16 = 50;

/// Default value of the latest chain id given to an appchain.
pub const DEFAULT_LATEST_APPCHAIN_CHAIN_ID: u32 = 7900;

/// The longest appchain id, in bytes.
pub const MAX_APPCHAIN_ID_LEN: usize = 20;

/// Who makes a request and when.
pub struct CallContext {
    /// The account that called the registry.
    pub predecessor_account_id: String,
    /// The account that signed the transaction.
    pub signer_account_id: String,
    /// The account of the registry itself.
    pub current_account_id: String,
    /// The time of the block, in nanoseconds.
    pub block_timestamp: u64,
}

/// A field of appchain metadata.
#[derive(Clone, Copy, Debug, PartialEq, Eq, Structural)]
pub enum MetadataField {
    Description,
    EvmChainId,
    WebsiteUrl,
    FunctionSpecUrl,
    GithubAddress,
    GithubRelease,
    ContactEmail,
    PreminedWrappedAppchainTokenBeneficiary,
    PreminedWrappedAppchainToken,
    InitialSupplyOfWrappedAppchainToken,
    IdoAmountOfWrappedAppchainToken,
    InitialEraReward,
}

/// Why a request is refused.
#[derive(Clone, Copy, Debug, PartialEq, Eq, Structural)]
pub enum RegistryError {
    /// The asset transfer in this contract has been paused.
    AssetTransferPaused,
    /// A deposit of a token other than OCT was received.
    UnknownDepositAsset,
    /// The register account should NOT be the contract owner.
    RegisterByContractOwner,
    /// Appchain already registered.
    AppchainAlreadyRegistered,
    /// Invalid register deposit.
    InvalidRegisterDeposit,
    /// Missing necessary field 'appchain_id'.
    MissingAppchainId,
    /// Invalid 'appchain_id'.
    InvalidAppchainId,
    /// Appchain id is too long.
    AppchainIdTooLong,
    /// Missing necessary field 'website_url'.
    MissingWebsiteUrl,
    /// Missing necessary field 'github_address'.
    MissingGithubAddress,
    /// Missing necessary field 'contact_email'.
    MissingContactEmail,
    /// The fungible token metadata does not pass the checks of the standard.
    InvalidFungibleTokenMetadata,
    /// Missing necessary field 'fungible token name'.
    MissingFungibleTokenName,
    /// Missing necessary field 'fungible token symbol'.
    MissingFungibleTokenSymbol,
    /// The initial supply of wrapped appchain token is less than the premined amount.
    InitialSupplyLessThanPremined,
    /// Appchain not found.
    AppchainNotFound,
    /// Function can only be called by owner.
    NotOwner,
    /// The account is the same.
    SameAccount,
    /// Function can only be called by appchain lifecycle manager.
    NotAppchainLifecycleManager,
    /// Function can only be called by registry settings manager.
    NotRegistrySettingsManager,
    /// This function can only be called by the role's holder or the contract owner.
    NotRoleHolderOrOwner,
    /// Octopus council account is not setup.
    OctopusCouncilNotSet,
    /// Only octopus council account can call this function.
    NotOctopusCouncil,
    /// The account already has role in contract.
    AccountHasRole,
    /// Function can only be called by appchain owner.
    NotAppchainOwner,
    /// The appchain is not in a state that allows the request.
    InvalidAppchainState,
    /// Anchor of appchain is not set.
    AnchorNotSet,
    /// Only appchain anchor can call this function.
    NotAppchainAnchor,
    /// Invalid state to sync.
    InvalidStateToSync,
    /// A field of the metadata is given with the value it already has.
    MetadataNotChanged(MetadataField),
    /// There is no appchain on the top of queue yet.
    NoTopAppchainInQueue,
    /// The sub account id of the appchain is not a valid account id.
    InvalidSubAccountId,
    /// The appchain still has upvote deposit(s).
    AppchainHasUpvoteDeposit,
    /// The appchain still has downvote deposit(s).
    AppchainHasDownvoteDeposit,
    /// Operator for counting voting score is not set.
    OperatorNotSet,
    /// Only certain operator can call this function.
    NotOperator,
    /// Count voting score can only be performed once in every interval.
    CountingTooFrequent,
    /// There is no appchain in queue to count.
    NoAppchainInQueue,
    /// The arithmetic overflows.
    ArithmeticOverflow,
    /// The minimum register deposit should NOT be 0.
    ZeroMinimumRegisterDeposit,
    /// Invalid percent value.
    InvalidPercent,
    /// Too short interval.
    IntervalTooShort,
    /// The owner not changed.
    OwnerNotChanged,
    /// Appchain is already in the state.
    AlreadyInState,
    /// Invalid public key.
    InvalidPublicKey,
    /// Withdraw amount is zero.
    ZeroWithdrawAmount,
    /// Not enough deposit to withdraw.
    NotEnoughDeposit,
    /// Timestamp must be later than staging duration.
    StagingTimestampTooEarly,
    /// Deploy code too early.
    DeployTooEarly,
    /// Not enough deposit for the storage of the wasm.
    NotEnoughStorageDeposit,
    /// Not enough gas left to migrate the state.
    NotEnoughGas,
}

/// The kind of a vote.
#[derive(Clone, Copy, Debug, PartialEq, Eq, Structural)]
pub enum VoteKind {
    Upvote,
    Downvote,
}

/// Outside work that an applied request leaves for the host to perform.
pub enum RegistryAction {
    /// Create the account, transfer the initial balance to it and add the public
    /// key as a full access key.
    CreateAnchorAccount { account_id: String, initial_balance: u128, public_key: Vec<u8> },
    /// Transfer OCT tokens back to a voter (`ft_transfer`, one yocto NEAR attached,
    /// `T_GAS_FOR_FT_TRANSFER`), then call the resolver of the withdrawal
    /// (`T_GAS_FOR_RESOLVER_FUNCTION`).
    WithdrawDeposit { appchain_id: String, receiver_id: String, amount: u128, kind: VoteKind },
    /// Call a function of an anchor contract with no deposit and the given gas (in TGas).
    CallAnchorFunction {
        account_id: String,
        function_name: String,
        args: Vec<u8>,
        gas_in_tgas: u64,
    },
    /// Deploy the staged code to the registry's own account.
    DeployStagedCode,
}

/// The roles of appchain registry.
pub struct RegistryRoles {
    /// The account that manages the lifecycle of appchains.
    pub appchain_lifecycle_manager: String,
    /// The account that manages the registry settings.
    pub registry_settings_manager: String,
    /// The account that counts the voting score (empty while it is not set).
    pub operator_of_counting_voting_score: String,
    /// The account of the Octopus Council.
    pub octopus_council: Option<String>,
}

/// The content of [`RegistryRoles`].
pub struct RegistryRolesView {
    pub appchain_lifecycle_manager: Seq<char>,
    pub registry_settings_manager: Seq<char>,
    pub operator_of_counting_voting_score: Seq<char>,
    pub octopus_council: Option<Seq<char>>,
}

impl View for RegistryRoles {
    type V = RegistryRolesView;

    open spec fn view(&self) -> RegistryRolesView {
        RegistryRolesView {
            appchain_lifecycle_manager: self.appchain_lifecycle_manager@,
            registry_settings_manager: self.registry_settings_manager@,
            operator_of_counting_voting_score: self.operator_of_counting_voting_score@,
            octopus_council: crate::metadata::opt_text(self.octopus_council),
        }
    }
}

/// Whether `account` holds the role of lifecycle manager, settings manager or
/// operator of counting.
pub open spec fn roles_include(roles: RegistryRolesView, account: Seq<char>) -> bool {
    ||| account == roles.appchain_lifecycle_manager
    ||| account == roles.registry_settings_manager
    ||| account == roles.operator_of_counting_voting_score
}

impl RegistryRoles {
    /// The roles of a new registry: the signer manages the lifecycle and the
    /// settings and counts the voting scores; no council is set.
    pub fn new_default(signer: &String) -> (r: Self)
        ensures
            r@ == (RegistryRolesView {
                appchain_lifecycle_manager: signer@,
                registry_settings_manager: signer@,
                operator_of_counting_voting_score: signer@,
                octopus_council: None,
            }),
    {
        RegistryRoles {
            appchain_lifecycle_manager: signer.clone(),
            registry_settings_manager: signer.clone(),
            operator_of_counting_voting_score: signer.clone(),
            octopus_council: None,
        }
    }

    /// Whether the account holds the role of lifecycle manager, settings manager
    /// or operator of counting.
    pub fn has_role(&self, account: &String) -> (r: bool)
        ensures
            r == roles_include(self@, account@),
    {
        *account == self.appchain_lifecycle_manager || *account == self.registry_settings_manager
            || *account == self.operator_of_counting_voting_score
    }

    /// A copy of the roles.
    pub fn copy(&self) -> (r: Self)
        ensures
            r@ == self@,
    {
        RegistryRoles {
            appchain_lifecycle_manager: self.appchain_lifecycle_manager.clone(),
            registry_settings_manager: self.registry_settings_manager.clone(),
            operator_of_counting_voting_score: self.operator_of_counting_voting_score.clone(),
            octopus_council: crate::metadata::clone_opt_string(&self.octopus_council),
        }
    }
}

/// The settings of appchain registry.
#[derive(Clone, Copy, Debug, PartialEq, Eq, Structural)]
pub struct RegistrySettings {
    /// The deposit that registering an appchain takes.
    pub minimum_register_deposit: u128,
    /// The percent by which the voting scores of appchains still in queue are
    /// reduced when the voting is concluded.
    pub voting_result_reduction_percent: u16,
    /// The shortest time between two countings of voting scores, in seconds.
    pub counting_interval_in_seconds: u64,
    /// The latest chain id given to an appchain.
    pub latest_appchain_chain_id: u32,
}

/// The settings of a new registry.
pub open spec fn default_settings() -> RegistrySettings {
    RegistrySettings {
        minimum_register_deposit: (DEFAULT_REGISTER_DEPOSIT * OCT_DECIMALS_BASE) as u128,
        voting_result_reduction_percent: DEFAULT_VOTING_RESULT_REDUCTION_PERCENT,
        counting_interval_in_seconds: SECONDS_OF_A_DAY,
        latest_appchain_chain_id: DEFAULT_LATEST_APPCHAIN_CHAIN_ID,
    }
}

impl Default for RegistrySettings {
    fn default() -> (r: Self)
        ensures
            r == default_settings(),
    {
        RegistrySettings {
            minimum_register_deposit: DEFAULT_REGISTER_DEPOSIT * OCT_DECIMALS_BASE,
            voting_result_reduction_percent: DEFAULT_VOTING_RESULT_REDUCTION_PERCENT,
            counting_interval_in_seconds: SECONDS_OF_A_DAY,
            latest_appchain_chain_id: DEFAULT_LATEST_APPCHAIN_CHAIN_ID,
        }
    }
}

/// The appchain registry.
pub struct AppchainRegistry {
    /// The account of the owner of this contract
    pub owner: String,
    /// The public key of owner account
    pub owner_pk: Vec<u8>,
    /// The earliest time that the staged code can be deployed
    pub contract_code_staging_timestamp: u64,
    /// The shortest time range between code staging and code deployment
    pub contract_code_staging_duration: u64,
    /// The account of OCT token contract
    pub oct_token: String,
    /// The settings of appchain registry
    pub registry_settings: RegistrySettings,
    /// The appchains, in the order of their ids in the set of appchain ids
    pub appchains: Vec<AppchainBasedata>,
    /// The map from pair (appchain id, account id) to their upvote deposit
    pub upvote_deposits: VoteDeposits,
    /// The map from pair (appchain id, account id) to their downvote deposit
    pub downvote_deposits: VoteDeposits,
    /// The appchain id with the highest voting score at the last counting
    pub top_appchain_id_in_queue: String,
    /// The time of the last counting of voting scores
    pub time_of_last_count_voting_score: u64,
    /// The total stake of OCT token in all appchains
    pub total_stake: u128,
    /// The roles of appchain registry
    pub registry_roles: RegistryRoles,
    /// Whether the asset transfer is paused
    pub asset_transfer_is_paused: bool,
}

/// The content of [`AppchainRegistry`].
pub struct RegistryView {
    pub owner: Seq<char>,
    pub owner_pk: Seq<u8>,
    pub contract_code_staging_timestamp: u64,
    pub contract_code_staging_duration: u64,
    pub oct_token: Seq<char>,
    pub registry_settings: RegistrySettings,
    pub appchains: Seq<AppchainBasedataView>,
    pub upvote_deposits: Map<(Seq<char>, Seq<char>), u128>,
    pub downvote_deposits: Map<(Seq<char>, Seq<char>), u128>,
    pub top_appchain_id_in_queue: Seq<char>,
    pub time_of_last_count_voting_score: u64,
    pub total_stake: u128,
    pub registry_roles: RegistryRolesView,
    pub asset_transfer_is_paused: bool,
}

impl View for AppchainRegistry {
    type V = RegistryView;

    open spec fn view(&self) -> RegistryView {
        RegistryView {
            owner: self.owner@,
            owner_pk: self.owner_pk@,
            contract_code_staging_timestamp: self.contract_code_staging_timestamp,
            contract_code_staging_duration: self.contract_code_staging_duration,
            oct_token: self.oct_token@,
            registry_settings: self.registry_settings,
            appchains: self.appchains@.map_values(|b: AppchainBasedata| b@),
            upvote_deposits: self.upvote_deposits@,
            downvote_deposits: self.downvote_deposits@,
            top_appchain_id_in_queue: self.top_appchain_id_in_queue@,
            time_of_last_count_voting_score: self.time_of_last_count_voting_score,
            total_stake: self.total_stake,
            registry_roles: self.registry_roles@,
            asset_transfer_is_paused: self.asset_transfer_is_paused,
        }
    }
}

/// No two appchains have the same id.
pub open spec fn appchain_ids_unique(apps: Seq<AppchainBasedataView>) -> bool {
    forall|i: int, j: int|
        0 <= i < j < apps.len() ==> #[trigger] apps[i].appchain_id != #[trigger] apps[j].appchain_id
}

/// The invariant of the registry: appchain ids are unique, the owner's key is a
/// key, the reduction percent is at most 100, the counting interval is not zero
/// and every recorded deposit is positive.
pub open spec fn registry_wf(v: RegistryView) -> bool {
    &&& appchain_ids_unique(v.appchains)
    &&& is_public_key_bytes(v.owner_pk)
    &&& v.registry_settings.voting_result_reduction_percent <= 100
    &&& v.registry_settings.counting_interval_in_seconds > 0
    &&& deposits_positive(v.upvote_deposits)
    &&& deposits_positive(v.downvote_deposits)
}

/// Whether an appchain with the id is registered.
pub open spec fn has_appchain(v: RegistryView, id: Seq<char>) -> bool {
    exists|i: int| 0 <= i < v.appchains.len() && #[trigger] v.appchains[i].appchain_id == id
}

/// The position of the appchain with the id.
pub open spec fn appchain_index(v: RegistryView, id: Seq<char>) -> int {
    choose|i: int| 0 <= i < v.appchains.len() && #[trigger] v.appchains[i].appchain_id == id
}

/// The appchain with the id.
pub open spec fn appchain_of(v: RegistryView, id: Seq<char>) -> AppchainBasedataView {
    v.appchains[appchain_index(v, id)]
}

/// The registry with the appchain at position `i` replaced by `b`.
pub open spec fn with_appchain_at(v: RegistryView, i: int, b: AppchainBasedataView) -> RegistryView {
    RegistryView { appchains: v.appchains.update(i, b), ..v }
}

/// The ids of the appchains, in order.
pub open spec fn appchain_id_seq(v: RegistryView) -> Seq<Seq<char>> {
    v.appchains.map_values(|b: AppchainBasedataView| b.appchain_id)
}

/// The first of two possible refusals.
pub open spec fn either(first: Option<RegistryError>, second: Option<RegistryError>) -> Option<
    RegistryError,
> {
    if first is Some {
        first
    } else {
        second
    }
}

/// A refusal if `cond` fails.
pub open spec fn check(cond: bool, e: RegistryError) -> Option<RegistryError> {
    if cond {
        None
    } else {
        Some(e)
    }
}

/// A refusal unless the appchain exists and is in one of the given states.
pub open spec fn appchain_state_check(
    v: RegistryView,
    id: Seq<char>,
    allowed: Set<AppchainState>,
) -> Option<RegistryError> {
    if !has_appchain(v, id) {
        Some(RegistryError::AppchainNotFound)
    } else {
        check(allowed.contains(appchain_of(v, id).appchain_state), RegistryError::InvalidAppchainState)
    }
}

/// The result that a refusal, or its absence, gives.
pub open spec fn outcome(err: Option<RegistryError>) -> Result<(), RegistryError> {
    match err {
        Some(e) => Err(e),
        None => Ok(()),
    }
}

use crate::types::AppchainState;

impl AppchainRegistry {
    /// The invariant of the registry.
    pub open spec fn wf(&self) -> bool {
        registry_wf(self@)
    }

    /// Position of the appchain with the id.
    pub fn find_appchain(&self, appchain_id: &String) -> (r: Option<usize>)
        requires
            self.wf(),
        ensures
            match r {
                Some(i) => has_appchain(self@, appchain_id@) && i == appchain_index(
                    self@,
                    appchain_id@,
                ) && i < self.appchains@.len(),
                None => !has_appchain(self@, appchain_id@),
            },
    {
        let mut i: usize = 0;
        while i < self.appchains.len()
            invariant
                self.wf(),
                i <= self.appchains@.len(),
                forall|j: int| 0 <= j < i ==> #[trigger] self@.appchains[j].appchain_id != appchain_id@,
            decreases self.appchains.len() - i,
        {
            if self.appchains[i].appchain_id == *appchain_id {
                proof {
                    assert(self@.appchains[i as int].appchain_id == appchain_id@);
                    let k = appchain_index(self@, appchain_id@);
                    assert(self@.appchains[k].appchain_id == appchain_id@);
                    assert(k == i) by {
                        if k < i {
                            assert(self@.appchains[k].appchain_id != self@.appchains[i as int].appchain_id);
                        } else if k > i {
                            assert(self@.appchains[i as int].appchain_id != self@.appchains[k].appchain_id);
                        }
                    }
                }
                return Some(i);
            }
            i = i + 1;
        }
        None
    }

    /// Replaces the appchain at position `i`.
    pub fn replace_appchain(&mut self, i: usize, basedata: AppchainBasedata)
        requires
            i < old(self).appchains@.len(),
        ensures
            final(self)@ == with_appchain_at(old(self)@, i as int, basedata@),
    {
        self.appchains.set(i, basedata);
        assert(self@.appchains =~= old(self)@.appchains.update(i as int, basedata@));
    }
}

/// The appchains with the one at position `i` taken out: the last takes its place.
pub open spec fn swap_removed(apps: Seq<AppchainBasedataView>, i: int) -> Seq<AppchainBasedataView> {
    apps.update(i, apps.last()).drop_last()
}

/// The registry with the appchain `id` in state `state`.
pub open spec fn with_appchain_state(v: RegistryView, id: Seq<char>, state: AppchainState) -> RegistryView {
    with_appchain_at(
        v,
        appchain_index(v, id),
        AppchainBasedataView { appchain_state: state, ..appchain_of(v, id) },
    )
}

/// Replacing an appchain by one with the same id keeps the invariant.
pub proof fn lemma_replace_keeps_wf(v: RegistryView, i: int, b: AppchainBasedataView)
    requires
        registry_wf(v),
        0 <= i < v.appchains.len(),
        b.appchain_id == v.appchains[i].appchain_id,
    ensures
        registry_wf(with_appchain_at(v, i, b)),
{
    let w = with_appchain_at(v, i, b);
    assert forall|a: int, c: int| 0 <= a < c < w.appchains.len() implies #[trigger] w.appchains[a].appchain_id
        != #[trigger] w.appchains[c].appchain_id by {
        assert(w.appchains[a].appchain_id == v.appchains[a].appchain_id);
        assert(w.appchains[c].appchain_id == v.appchains[c].appchain_id);
    }
}

impl AppchainRegistry {
    /// Puts the appchain at position `i` in state `state`.
    pub fn set_appchain_state_at(&mut self, i: usize, state: AppchainState)
        requires
            old(self).wf(),
            i < old(self).appchains@.len(),
        ensures
            final(self)@ == with_appchain_at(
                old(self)@,
                i as int,
                AppchainBasedataView { appchain_state: state, ..old(self)@.appchains[i as int] },
            ),
            final(self).wf(),
    {
        self.appchains[i].set_state(state);
        proof {
            assert(self@.appchains =~= old(self)@.appchains.update(
                i as int,
                AppchainBasedataView { appchain_state: state, ..old(self)@.appchains[i as int] },
            ));
            lemma_replace_keeps_wf(
                old(self)@,
                i as int,
                AppchainBasedataView { appchain_state: state, ..old(self)@.appchains[i as int] },
            );
        }
    }

    /// Takes the appchain at position `i` out of the registry; the last appchain
    /// takes its place, as in the set of appchain ids.
    pub fn remove_appchain_at(&mut self, i: usize)
        requires
            old(self).wf(),
            i < old(self).appchains@.len(),
        ensures
            final(self)@ == (RegistryView {
                appchains: swap_removed(old(self)@.appchains, i as int),
                ..old(self)@
            }),
            final(self).wf(),
    {
        let ghost v = old(self)@;
        self.appchains.swap_remove(i);
        proof {
            let w = swap_removed(v.appchains, i as int);
            assert(self@.appchains =~= w);
            assert forall|a: int, c: int| 0 <= a < c < w.len() implies #[trigger] w[a].appchain_id
                != #[trigger] w[c].appchain_id by {
                let a0 = if a == i { v.appchains.len() - 1 } else { a };
                let c0 = if c == i { v.appchains.len() - 1 } else { c };
                assert(w[a] == v.appchains[a0]);
                assert(w[c] == v.appchains[c0]);
                assert(a0 != c0);
                if a0 < c0 {
                    assert(v.appchains[a0].appchain_id != v.appchains[c0].appchain_id);
                } else {
                    assert(v.appchains[c0].appchain_id != v.appchains[a0].appchain_id);
                }
            }
        }
    }
}

impl AppchainRegistry {
    /// Whether the registry holds its invariant (a registry rebuilt from storage is
    /// checked before a request is applied to it).
    pub fn is_well_formed(&self) -> (r: bool)
        ensures
            r == self.wf(),
    {
        let _ = self.upvote_deposits.entries();
        let _ = self.downvote_deposits.entries();
        if !crate::accounts::has_public_key_shape(&self.owner_pk) {
            return false;
        }
        if self.registry_settings.voting_result_reduction_percent > 100 {
            return false;
        }
        if self.registry_settings.counting_interval_in_seconds == 0 {
            return false;
        }
        let n = self.appchains.len();
        let mut i: usize = 0;
        while i < n
            invariant
                i <= n,
                n == self@.appchains.len(),
                forall|a: int, c: int|
                    0 <= a < c < n && a < i ==> #[trigger] self@.appchains[a].appchain_id
                        != #[trigger] self@.appchains[c].appchain_id,
            decreases n - i,
        {
            let mut j: usize = i + 1;
            while j < n
                invariant
                    i < n,
                    i < j <= n,
                    n == self@.appchains.len(),
                    forall|c: int| i < c < j ==> self@.appchains[i as int].appchain_id
                        != #[trigger] self@.appchains[c].appchain_id,
                decreases n - j,
            {
                if self.appchains[i].appchain_id == self.appchains[j].appchain_id {
                    assert(self@.appchains[i as int].appchain_id == self@.appchains[j as int].appchain_id);
                    return false;
                }
                j = j + 1;
            }
            i = i + 1;
        }
        true
    }
}

/// A copy of a byte vector.
pub fn copy_bytes(v: &Vec<u8>) -> (r: Vec<u8>)
    ensures
        r@ == v@,
{
    let r = v.clone();
    assert(r@ =~= v@);
    r
}

} // verus!
