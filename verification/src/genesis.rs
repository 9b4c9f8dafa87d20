//! Assembly of the genesis parameters from the initial authorities, the root
//! account and the endowed accounts.

use vstd::prelude::*;
use crate::config::{
    ActorsConfig, AuthorityDiscoveryConfig, BabeConfig, BalancesConfig, CouncilConfig,
    CouncilElectionConfig, DataObjectStorageRegistryConfig, DataObjectTypeRegistryConfig,
    DownloadSessionsConfig, Forcing, ForumConfig, GenesisConfig, GrandpaConfig, ImOnlineConfig,
    IndicesConfig, InputValidationLengthConstraint, MembersConfig, Perbill, ProposalsConfig,
    QueryConfig, SessionConfig, SessionKeys, StakerStatus, StakingConfig, SudoConfig,
    SystemConfig,
};
use crate::economics::{CENTS, DAYS, DOLLARS, ENDOWMENT, STASH};
use crate::keys::{AccountId, AuthorityKeys, BabeId, GrandpaId, ImOnlineId};

verus! {

/// The stash accounts of the authorities, in their order.
pub open spec fn stash_accounts(authorities: Seq<AuthorityKeys>) -> Seq<AccountId> {
    authorities.map_values(|a: AuthorityKeys| a.0)
}

/// The controller accounts of the authorities, in their order.
pub open spec fn controller_accounts(authorities: Seq<AuthorityKeys>) -> Seq<AccountId> {
    authorities.map_values(|a: AuthorityKeys| a.1)
}

/// The credits of the balances block: the endowment for each endowed
/// account, then the stash amount for each authority's stash account.
/// Nothing is merged: an account in both lists is credited twice.
pub open spec fn balance_credits(
    endowed: Seq<AccountId>,
    authorities: Seq<AuthorityKeys>,
) -> Seq<(AccountId, u128)> {
    endowed.map_values(|who: AccountId| (who, ENDOWMENT)) + authorities.map_values(
        |a: AuthorityKeys| (a.0, STASH),
    )
}

/// The stakers of the staking block: each authority as a validator, its
/// stash bonded at the stash amount under its controller.
pub open spec fn genesis_stakers(authorities: Seq<AuthorityKeys>) -> Seq<
    (AccountId, AccountId, u128, StakerStatus),
> {
    authorities.map_values(|a: AuthorityKeys| (a.0, a.1, STASH, StakerStatus::Validator))
}

/// The session keys of an authority: its finality, authorship and liveness
/// keys.
pub open spec fn session_keys_of(a: AuthorityKeys) -> SessionKeys {
    SessionKeys { grandpa: a.2, babe: a.3, im_online: a.4 }
}

/// The entries of the session block: each authority's stash account with its
/// session keys, in the order of the authorities.
pub open spec fn session_entries(authorities: Seq<AuthorityKeys>) -> Seq<(AccountId, SessionKeys)> {
    authorities.map_values(|a: AuthorityKeys| (a.0, session_keys_of(a)))
}

/// The parameters of council elections.
pub open spec fn election_parameters() -> CouncilElectionConfig {
    CouncilElectionConfig {
        auto_start: true,
        announcing_period: (3 * DAYS) as u32,
        voting_period: DAYS,
        revealing_period: DAYS,
        council_size: 12,
        candidacy_limit: 25,
        min_council_stake: (10 * DOLLARS) as u128,
        new_term_duration: (14 * DAYS) as u32,
        min_voting_stake: DOLLARS,
    }
}

/// The parameters of runtime-upgrade proposals.
pub open spec fn proposals_parameters() -> ProposalsConfig {
    ProposalsConfig {
        approval_quorum: 66,
        min_stake: (2 * DOLLARS) as u128,
        cancellation_fee: (10 * CENTS) as u128,
        rejection_fee: DOLLARS,
        voting_period: (2 * DAYS) as u32,
        name_max_len: 512,
        description_max_len: 10_000,
        wasm_code_max_len: 2_000_000,
    }
}

impl BalancesConfig {
    /// The block credits the endowed accounts and the authorities' stashes,
    /// and holds no vesting schedule.
    pub open spec fn is_genesis_of(
        &self,
        endowed: Seq<AccountId>,
        authorities: Seq<AuthorityKeys>,
    ) -> bool {
        &&& self.balances@ == balance_credits(endowed, authorities)
        &&& self.vesting@.len() == 0
    }
}

impl StakingConfig {
    /// The block makes every authority a validator bonded at the stash
    /// amount, exempts the controllers from slashing, and holds the fixed
    /// staking parameters.
    pub open spec fn is_genesis_of(&self, authorities: Seq<AuthorityKeys>) -> bool {
        &&& self.current_era == 0
        &&& self.validator_count == 20
        &&& self.force_era == Forcing::NotForcing
        &&& self.slash_reward_fraction == Perbill(10_000_000)
        &&& self.minimum_validator_count == 1
        &&& self.stakers@ == genesis_stakers(authorities)
        &&& self.invulnerables@ == controller_accounts(authorities)
    }
}

impl SessionConfig {
    /// The block holds one entry per authority, in their order.
    pub open spec fn is_genesis_of(&self, authorities: Seq<AuthorityKeys>) -> bool {
        self.keys@ == session_entries(authorities)
    }
}

impl ForumConfig {
    /// The forum is empty, its identifiers start at one, `sudo` moderates
    /// it, and its text bounds are the fixed ones.
    pub open spec fn is_initial(&self, sudo: AccountId) -> bool {
        &&& self.category_by_id@.len() == 0
        &&& self.thread_by_id@.len() == 0
        &&& self.post_by_id@.len() == 0
        &&& self.next_category_id == 1
        &&& self.next_thread_id == 1
        &&& self.next_post_id == 1
        &&& self.forum_sudo == sudo
        &&& self.category_title_constraint == (InputValidationLengthConstraint {
            min: 10,
            max_min_diff: 90,
        })
        &&& self.category_description_constraint == (InputValidationLengthConstraint {
            min: 10,
            max_min_diff: 490,
        })
        &&& self.thread_title_constraint == (InputValidationLengthConstraint {
            min: 10,
            max_min_diff: 90,
        })
        &&& self.post_text_constraint == (InputValidationLengthConstraint {
            min: 10,
            max_min_diff: 990,
        })
        &&& self.thread_moderation_rationale_constraint == (InputValidationLengthConstraint {
            min: 10,
            max_min_diff: 290,
        })
        &&& self.post_moderation_rationale_constraint == (InputValidationLengthConstraint {
            min: 10,
            max_min_diff: 290,
        })
    }
}

impl GenesisConfig {
    /// The descriptor is the genesis of a test network with the given
    /// authorities, root account and endowed accounts, running `code` and
    /// the query runtime `query_runtime`. Every block is present, and every
    /// field of every block is fixed.
    pub open spec fn is_testnet_genesis(
        &self,
        authorities: Seq<AuthorityKeys>,
        root: AccountId,
        endowed: Seq<AccountId>,
        code: Seq<u8>,
        query_runtime: Seq<u8>,
    ) -> bool {
        &&& self.system matches Some(system) && system.code@ == code
            && system.changes_trie_config is None
        &&& self.indices matches Some(indices) && indices.ids@ == endowed
        &&& self.balances matches Some(balances) && balances.is_genesis_of(endowed, authorities)
        &&& self.sudo == Some(SudoConfig { key: root })
        &&& self.babe matches Some(babe) && babe.authorities@.len() == 0
        &&& self.grandpa matches Some(grandpa) && grandpa.authorities@.len() == 0
        &&& self.actors == Some(ActorsConfig { enable_storage_role: true, request_life_time: 300 })
        &&& self.council matches Some(council) && council.active_council@.len() == 0
            && council.term_ends_at == 1
        &&& self.data_object_type_registry == Some(
            DataObjectTypeRegistryConfig { first_data_object_type_id: 1 },
        )
        &&& self.data_object_storage_registry == Some(
            DataObjectStorageRegistryConfig { first_relationship_id: 1 },
        )
        &&& self.downloads == Some(DownloadSessionsConfig { first_download_session_id: 1 })
        &&& self.election == Some(election_parameters())
        &&& self.forum matches Some(forum) && forum.is_initial(root)
        &&& self.im_online matches Some(im_online) && im_online.keys@.len() == 0
        &&& self.members matches Some(members) && members.default_paid_membership_fee == 100
            && members.first_member_id == 1 && members.members@.len() == 0
        &&& self.authority_discovery matches Some(discovery) && discovery.keys@.len() == 0
        &&& self.proposals == Some(proposals_parameters())
        &&& self.session matches Some(session) && session.is_genesis_of(authorities)
        &&& self.staking matches Some(staking) && staking.is_genesis_of(authorities)
        &&& self.query matches Some(query) && query.runtime@ == query_runtime
    }
}

/// The bounds on a text's length, from its least length and the room above
/// it.
pub fn new_validation(min: u16, max_min_diff: u16) -> (c: InputValidationLengthConstraint)
    ensures
        c == (InputValidationLengthConstraint { min, max_min_diff }),
{
    InputValidationLengthConstraint { min, max_min_diff }
}

/// Bundles the three session keys of an authority.
pub fn session_keys(grandpa: GrandpaId, babe: BabeId, im_online: ImOnlineId) -> (keys: SessionKeys)
    ensures
        keys == (SessionKeys { grandpa, babe, im_online }),
{
    SessionKeys { grandpa, babe, im_online }
}

/// Builds the balances block: the endowment for every endowed account, then
/// the stash amount for every authority's stash account. An account that is
/// both endowed and a stash gets both credits.
pub fn balances_config(
    endowed_accounts: &Vec<AccountId>,
    initial_authorities: &Vec<AuthorityKeys>,
) -> (config: BalancesConfig)
    ensures
        config.is_genesis_of(endowed_accounts@, initial_authorities@),
        config.balances@.len() == endowed_accounts@.len() + initial_authorities@.len(),
{
    let mut balances: Vec<(AccountId, u128)> = Vec::new();
    let endowed_count: usize = endowed_accounts.len();
    for i in 0..endowed_count
        invariant
            endowed_count == endowed_accounts@.len(),
            balances@.len() == i,
            forall|j: int| 0 <= j < i ==> balances@[j] == (endowed_accounts@[j], ENDOWMENT),
    {
        balances.push((endowed_accounts[i], ENDOWMENT));
    }
    let authority_count: usize = initial_authorities.len();
    for i in 0..authority_count
        invariant
            endowed_count == endowed_accounts@.len(),
            authority_count == initial_authorities@.len(),
            balances@.len() == endowed_count + i,
            forall|j: int|
                0 <= j < endowed_count ==> balances@[j] == (endowed_accounts@[j], ENDOWMENT),
            forall|j: int|
                0 <= j < i ==> balances@[endowed_count + j] == (initial_authorities@[j].0, STASH),
    {
        balances.push((initial_authorities[i].0, STASH));
    }
    assert(balances@ =~= balance_credits(endowed_accounts@, initial_authorities@));
    BalancesConfig { balances, vesting: Vec::new() }
}

/// Builds the staking block: every authority a validator, bonded at the
/// stash amount, its controller exempt from slashing.
pub fn staking_config(initial_authorities: &Vec<AuthorityKeys>) -> (config: StakingConfig)
    ensures
        config.is_genesis_of(initial_authorities@),
        config.stakers@.len() == initial_authorities@.len(),
        config.invulnerables@.len() == initial_authorities@.len(),
{
    let mut stakers: Vec<(AccountId, AccountId, u128, StakerStatus)> = Vec::new();
    let mut invulnerables: Vec<AccountId> = Vec::new();
    let count: usize = initial_authorities.len();
    for i in 0..count
        invariant
            count == initial_authorities@.len(),
            stakers@.len() == i,
            invulnerables@.len() == i,
            forall|j: int|
                0 <= j < i ==> stakers@[j] == (
                    initial_authorities@[j].0,
                    initial_authorities@[j].1,
                    STASH,
                    StakerStatus::Validator,
                ),
            forall|j: int| 0 <= j < i ==> invulnerables@[j] == initial_authorities@[j].1,
    {
        let keys: AuthorityKeys = initial_authorities[i];
        stakers.push((keys.0, keys.1, STASH, StakerStatus::Validator));
        invulnerables.push(keys.1);
    }
    assert(stakers@ =~= genesis_stakers(initial_authorities@));
    assert(invulnerables@ =~= controller_accounts(initial_authorities@));
    StakingConfig {
        current_era: 0,
        validator_count: 20,
        force_era: Forcing::NotForcing,
        slash_reward_fraction: Perbill::from_millionths(10_000),
        minimum_validator_count: 1,
        stakers,
        invulnerables,
    }
}

/// Builds the session block: for every authority, in order, its stash
/// account with its finality, authorship and liveness keys.
pub fn session_config(initial_authorities: &Vec<AuthorityKeys>) -> (config: SessionConfig)
    ensures
        config.is_genesis_of(initial_authorities@),
        config.keys@.len() == initial_authorities@.len(),
        forall|i: int|
            0 <= i < initial_authorities@.len() ==> {
                &&& (#[trigger] config.keys@[i]).0 == initial_authorities@[i].0
                &&& config.keys@[i].1.grandpa == initial_authorities@[i].2
                &&& config.keys@[i].1.babe == initial_authorities@[i].3
                &&& config.keys@[i].1.im_online == initial_authorities@[i].4
            },
{
    let mut keys: Vec<(AccountId, SessionKeys)> = Vec::new();
    let count: usize = initial_authorities.len();
    for i in 0..count
        invariant
            count == initial_authorities@.len(),
            keys@.len() == i,
            forall|j: int|
                0 <= j < i ==> keys@[j] == (
                    initial_authorities@[j].0,
                    session_keys_of(initial_authorities@[j]),
                ),
    {
        let a: AuthorityKeys = initial_authorities[i];
        keys.push((a.0, session_keys(a.2, a.3, a.4)));
    }
    assert(keys@ =~= session_entries(initial_authorities@));
    SessionConfig { keys }
}

/// Assembles the genesis parameters of all modules.
///
/// The balances, staking and session blocks follow the authorities and the
/// endowed accounts; the root account holds the sudo key and moderates the
/// forum; every other value is a fixed parameter. An empty list of
/// authorities gives empty staking and session blocks.
pub fn testnet_genesis(
    initial_authorities: Vec<AuthorityKeys>,
    root_key: AccountId,
    endowed_accounts: Vec<AccountId>,
    code: Vec<u8>,
    query_runtime: Vec<u8>,
) -> (genesis: GenesisConfig)
    ensures
        genesis.is_testnet_genesis(
            initial_authorities@,
            root_key,
            endowed_accounts@,
            code@,
            query_runtime@,
        ),
{
    let balances = balances_config(&endowed_accounts, &initial_authorities);
    let session = session_config(&initial_authorities);
    let staking = staking_config(&initial_authorities);
    GenesisConfig {
        system: Some(SystemConfig { code, changes_trie_config: None }),
        indices: Some(IndicesConfig { ids: endowed_accounts }),
        balances: Some(balances),
        sudo: Some(SudoConfig { key: root_key }),
        babe: Some(BabeConfig { authorities: Vec::new() }),
        grandpa: Some(GrandpaConfig { authorities: Vec::new() }),
        actors: Some(ActorsConfig { enable_storage_role: true, request_life_time: 300 }),
        council: Some(CouncilConfig { active_council: Vec::new(), term_ends_at: 1 }),
        data_object_type_registry: Some(
            DataObjectTypeRegistryConfig { first_data_object_type_id: 1 },
        ),
        data_object_storage_registry: Some(
            DataObjectStorageRegistryConfig { first_relationship_id: 1 },
        ),
        downloads: Some(DownloadSessionsConfig { first_download_session_id: 1 }),
        election: Some(
            CouncilElectionConfig {
                auto_start: true,
                announcing_period: 3 * DAYS,
                voting_period: 1 * DAYS,
                revealing_period: 1 * DAYS,
                council_size: 12,
                candidacy_limit: 25,
                min_council_stake: 10 * DOLLARS,
                new_term_duration: 14 * DAYS,
                min_voting_stake: 1 * DOLLARS,
            },
        ),
        forum: Some(
            ForumConfig {
                category_by_id: Vec::new(),
                thread_by_id: Vec::new(),
                post_by_id: Vec::new(),
                next_category_id: 1,
                next_thread_id: 1,
                next_post_id: 1,
                forum_sudo: root_key,
                category_title_constraint: new_validation(10, 90),
                category_description_constraint: new_validation(10, 490),
                thread_title_constraint: new_validation(10, 90),
                post_text_constraint: new_validation(10, 990),
                thread_moderation_rationale_constraint: new_validation(10, 290),
                post_moderation_rationale_constraint: new_validation(10, 290),
            },
        ),
        im_online: Some(ImOnlineConfig { keys: Vec::new() }),
        members: Some(
            MembersConfig {
                default_paid_membership_fee: 100u128,
                first_member_id: 1,
                members: Vec::new(),
            },
        ),
        authority_discovery: Some(AuthorityDiscoveryConfig { keys: Vec::new() }),
        proposals: Some(
            ProposalsConfig {
                approval_quorum: 66,
                min_stake: 2 * DOLLARS,
                cancellation_fee: 10 * CENTS,
                rejection_fee: 1 * DOLLARS,
                voting_period: 2 * DAYS,
                name_max_len: 512,
                description_max_len: 10_000,
                wasm_code_max_len: 2_000_000,
            },
        ),
        session: Some(session),
        staking: Some(staking),
        query: Some(QueryConfig { runtime: query_runtime }),
    }
}

} // verus!
