//! The genesis parameters of each runtime module.
//!
//! Field names and nesting follow the genesis schema of the runtime, so that
//! a descriptor can be handed over field by field.

use vstd::prelude::*;
use crate::keys::{AccountId, BabeId, GrandpaId, ImOnlineId};

verus! {

/// Parts per billion of a whole.
#[derive(Clone, Copy, PartialEq, Eq, Debug)]
pub struct Perbill(pub u32);

impl Perbill {
    /// The number of parts that `x` millionths come to; more than a million
    /// millionths count as the whole.
    pub open spec fn parts_of_millionths(x: u32) -> int {
        if x <= 1_000_000 {
            x * 1_000
        } else {
            1_000_000_000
        }
    }

    /// The fraction of `x` millionths, capped at the whole.
    pub fn from_millionths(x: u32) -> (p: Perbill)
        ensures
            p.0 == Self::parts_of_millionths(x),
            p.0 <= 1_000_000_000,
    {
        let capped: u32 = if x <= 1_000_000 {
            x
        } else {
            1_000_000
        };
        Perbill(capped * 1_000)
    }
}

/// How the next era change is forced.
#[derive(Clone, Copy, PartialEq, Eq, Debug)]
pub enum Forcing {
    NotForcing,
    ForceNew,
    ForceNone,
    ForceAlways,
}

/// The role a staker declares.
#[derive(Clone, PartialEq, Eq, Debug)]
pub enum StakerStatus {
    Idle,
    Validator,
    Nominator(Vec<AccountId>),
}

/// The bounds on the length of a text: at least `min`, at most
/// `min + max_min_diff`.
#[derive(Clone, Copy, PartialEq, Eq, Debug)]
pub struct InputValidationLengthConstraint {
    pub min: u16,
    pub max_min_diff: u16,
}

/// The session keys of one authority.
#[derive(Clone, Copy, PartialEq, Eq, Debug)]
pub struct SessionKeys {
    pub grandpa: GrandpaId,
    pub babe: BabeId,
    pub im_online: ImOnlineId,
}

/// How the changes trie is laid out, where one is kept.
#[derive(Clone, Copy, PartialEq, Eq, Debug)]
pub struct ChangesTrieConfiguration {
    pub digest_interval: u32,
    pub digest_levels: u32,
}

#[derive(Clone, PartialEq, Eq, Debug)]
pub struct SystemConfig {
    /// The compiled runtime.
    pub code: Vec<u8>,
    pub changes_trie_config: Option<ChangesTrieConfiguration>,
}

#[derive(Clone, PartialEq, Eq, Debug)]
pub struct IndicesConfig {
    pub ids: Vec<AccountId>,
}

#[derive(Clone, PartialEq, Eq, Debug)]
pub struct BalancesConfig {
    /// Credits in ledger order. An account may occur more than once: its
    /// credits add up.
    pub balances: Vec<(AccountId, u128)>,
    /// Vesting schedules: account, first block, length in blocks, liquid
    /// amount.
    pub vesting: Vec<(AccountId, u32, u32, u128)>,
}

#[derive(Clone, Copy, PartialEq, Eq, Debug)]
pub struct SudoConfig {
    pub key: AccountId,
}

#[derive(Clone, PartialEq, Eq, Debug)]
pub struct BabeConfig {
    /// Authorities with their weights.
    pub authorities: Vec<(BabeId, u64)>,
}

#[derive(Clone, PartialEq, Eq, Debug)]
pub struct GrandpaConfig {
    /// Authorities with their weights.
    pub authorities: Vec<(GrandpaId, u64)>,
}

#[derive(Clone, Copy, PartialEq, Eq, Debug)]
pub struct ActorsConfig {
    pub enable_storage_role: bool,
    pub request_life_time: u64,
}

#[derive(Clone, PartialEq, Eq, Debug)]
pub struct CouncilConfig {
    /// Seats of the sitting council: member and stake.
    pub active_council: Vec<(AccountId, u128)>,
    pub term_ends_at: u32,
}

#[derive(Clone, Copy, PartialEq, Eq, Debug)]
pub struct DataObjectTypeRegistryConfig {
    pub first_data_object_type_id: u64,
}

#[derive(Clone, Copy, PartialEq, Eq, Debug)]
pub struct DataObjectStorageRegistryConfig {
    pub first_relationship_id: u64,
}

#[derive(Clone, Copy, PartialEq, Eq, Debug)]
pub struct DownloadSessionsConfig {
    pub first_download_session_id: u64,
}

#[derive(Clone, Copy, PartialEq, Eq, Debug)]
pub struct CouncilElectionConfig {
    pub auto_start: bool,
    pub announcing_period: u32,
    pub voting_period: u32,
    pub revealing_period: u32,
    pub council_size: u32,
    pub candidacy_limit: u32,
    pub min_council_stake: u128,
    pub new_term_duration: u32,
    pub min_voting_stake: u128,
}

#[derive(Clone, PartialEq, Eq, Debug)]
pub struct ForumConfig {
    /// Categories by identifier, each as its encoded record.
    pub category_by_id: Vec<(u64, Vec<u8>)>,
    /// Threads by identifier, each as its encoded record.
    pub thread_by_id: Vec<(u64, Vec<u8>)>,
    /// Posts by identifier, each as its encoded record.
    pub post_by_id: Vec<(u64, Vec<u8>)>,
    pub next_category_id: u64,
    pub next_thread_id: u64,
    pub next_post_id: u64,
    pub forum_sudo: AccountId,
    pub category_title_constraint: InputValidationLengthConstraint,
    pub category_description_constraint: InputValidationLengthConstraint,
    pub thread_title_constraint: InputValidationLengthConstraint,
    pub post_text_constraint: InputValidationLengthConstraint,
    pub thread_moderation_rationale_constraint: InputValidationLengthConstraint,
    pub post_moderation_rationale_constraint: InputValidationLengthConstraint,
}

#[derive(Clone, PartialEq, Eq, Debug)]
pub struct ImOnlineConfig {
    pub keys: Vec<ImOnlineId>,
}

#[derive(Clone, PartialEq, Eq, Debug)]
pub struct MembersConfig {
    pub default_paid_membership_fee: u128,
    pub first_member_id: u64,
    /// Initial members: account, handle, avatar address, self-description.
    pub members: Vec<(AccountId, String, String, String)>,
}

#[derive(Clone, PartialEq, Eq, Debug)]
pub struct AuthorityDiscoveryConfig {
    pub keys: Vec<ImOnlineId>,
}

#[derive(Clone, Copy, PartialEq, Eq, Debug)]
pub struct ProposalsConfig {
    pub approval_quorum: u32,
    pub min_stake: u128,
    pub cancellation_fee: u128,
    pub rejection_fee: u128,
    pub voting_period: u32,
    pub name_max_len: u32,
    pub description_max_len: u32,
    pub wasm_code_max_len: u32,
}

#[derive(Clone, PartialEq, Eq, Debug)]
pub struct SessionConfig {
    /// One entry per authority: its stash account and its session keys.
    pub keys: Vec<(AccountId, SessionKeys)>,
}

#[derive(Clone, PartialEq, Eq, Debug)]
pub struct StakingConfig {
    pub current_era: u32,
    pub validator_count: u32,
    pub force_era: Forcing,
    pub slash_reward_fraction: Perbill,
    pub minimum_validator_count: u32,
    /// Stash, controller, bonded amount and declared role of each staker.
    pub stakers: Vec<(AccountId, AccountId, u128, StakerStatus)>,
    /// Accounts that are never slashed.
    pub invulnerables: Vec<AccountId>,
}

#[derive(Clone, PartialEq, Eq, Debug)]
pub struct QueryConfig {
    /// The compiled query runtime; empty where none was built.
    pub runtime: Vec<u8>,
}

/// The genesis parameters of all modules.
#[derive(Clone, PartialEq, Eq, Debug)]
pub struct GenesisConfig {
    pub system: Option<SystemConfig>,
    pub indices: Option<IndicesConfig>,
    pub balances: Option<BalancesConfig>,
    pub sudo: Option<SudoConfig>,
    pub babe: Option<BabeConfig>,
    pub grandpa: Option<GrandpaConfig>,
    pub actors: Option<ActorsConfig>,
    pub council: Option<CouncilConfig>,
    pub data_object_type_registry: Option<DataObjectTypeRegistryConfig>,
    pub data_object_storage_registry: Option<DataObjectStorageRegistryConfig>,
    pub downloads: Option<DownloadSessionsConfig>,
    pub election: Option<CouncilElectionConfig>,
    pub forum: Option<ForumConfig>,
    pub im_online: Option<ImOnlineConfig>,
    pub members: Option<MembersConfig>,
    pub authority_discovery: Option<AuthorityDiscoveryConfig>,
    pub proposals: Option<ProposalsConfig>,
    pub session: Option<SessionConfig>,
    pub staking: Option<StakingConfig>,
    pub query: Option<QueryConfig>,
}

} // verus!
