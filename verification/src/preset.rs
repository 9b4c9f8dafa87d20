//! The two chain topologies and what each is made of.

use vstd::prelude::*;
use vstd::string::*;
use crate::config::GenesisConfig;
use crate::error::ChainSpecError;
use crate::genesis::testnet_genesis;
use crate::keys::{
    authority_keys_from_seed, get_authority_keys_from_seed, get_from_seed, public_from_seed,
    stash_seed, AccountId, AuthorityKeys,
};

verus! {

/// The chain topology to run. It comes in as a name and stands for a chain
/// specification; no key is derived before the genesis is asked for.
#[derive(Clone, Copy, PartialEq, Eq, Debug)]
pub enum Alternative {
    /// A single-authority chain, with Alice as the authority.
    Development,
    /// A chain with the two authorities Alice and Bob.
    LocalTestnet,
}

/// A chain specification: what a chain is called, and how its genesis comes
/// about.
#[derive(Clone, PartialEq, Eq, Debug)]
pub struct ChainSpec {
    pub name: String,
    pub id: String,
    /// The topology from which the genesis is built on demand.
    pub preset: Alternative,
    pub boot_nodes: Vec<String>,
    /// Telemetry servers with their verbosity.
    pub telemetry_endpoints: Option<Vec<(String, u8)>>,
    pub protocol_id: Option<String>,
    pub consensus_engine: Option<String>,
    pub properties: Option<Vec<(String, String)>>,
}

/// The seeds that a list of strings holds.
pub open spec fn seeds_view(seeds: Seq<&'static str>) -> Seq<Seq<char>> {
    seeds.map_values(|s: &'static str| s@)
}

/// Every seed of the list stands for an account.
pub open spec fn accounts_derivable(seeds: Seq<Seq<char>>) -> bool {
    forall|i: int|
        0 <= i < seeds.len() ==> (#[trigger] public_from_seed::<AccountId>(seeds[i])) is Some
}

/// The accounts that the seeds stand for, in their order.
pub open spec fn derived_accounts(seeds: Seq<Seq<char>>) -> Seq<AccountId> {
    seeds.map_values(|seed: Seq<char>| public_from_seed::<AccountId>(seed).unwrap())
}

/// Every seed of the list stands for an authority.
pub open spec fn authorities_derivable(seeds: Seq<Seq<char>>) -> bool {
    forall|i: int| 0 <= i < seeds.len() ==> (#[trigger] authority_keys_from_seed(seeds[i])) is Some
}

/// The authorities that the seeds stand for, in their order.
pub open spec fn derived_authorities(seeds: Seq<Seq<char>>) -> Seq<AuthorityKeys> {
    seeds.map_values(|seed: Seq<char>| authority_keys_from_seed(seed).unwrap())
}

/// Derives the account of every seed, in order. It fails exactly where some
/// seed stands for no account.
pub fn accounts_from_seeds(seeds: &Vec<&'static str>) -> (r: Result<Vec<AccountId>, ChainSpecError>)
    ensures
        match r {
            Ok(accounts) => accounts_derivable(seeds_view(seeds@)) && accounts@
                == derived_accounts(seeds_view(seeds@)),
            Err(e) => e == ChainSpecError::KeyDerivationFailure && !accounts_derivable(
                seeds_view(seeds@),
            ),
        },
{
    let mut accounts: Vec<AccountId> = Vec::new();
    let count: usize = seeds.len();
    for i in 0..count
        invariant
            count == seeds@.len(),
            accounts@.len() == i,
            forall|j: int|
                0 <= j < i ==> public_from_seed::<AccountId>(#[trigger] seeds_view(seeds@)[j])
                    == Some(accounts@[j]),
    {
        assert(seeds_view(seeds@)[i as int] == seeds@[i as int]@);
        match get_from_seed::<AccountId>(seeds[i]) {
            Ok(account) => {
                accounts.push(account);
            },
            Err(e) => {
                return Err(e);
            },
        }
    }
    assert(accounts@ =~= derived_accounts(seeds_view(seeds@)));
    Ok(accounts)
}

/// Derives the key set of every seed, in order. It fails exactly where some
/// seed stands for no authority.
pub fn authorities_from_seeds(seeds: &Vec<&'static str>) -> (r: Result<
    Vec<AuthorityKeys>,
    ChainSpecError,
>)
    ensures
        match r {
            Ok(authorities) => authorities_derivable(seeds_view(seeds@)) && authorities@
                == derived_authorities(seeds_view(seeds@)),
            Err(e) => e == ChainSpecError::KeyDerivationFailure && !authorities_derivable(
                seeds_view(seeds@),
            ),
        },
{
    let mut authorities: Vec<AuthorityKeys> = Vec::new();
    let count: usize = seeds.len();
    for i in 0..count
        invariant
            count == seeds@.len(),
            authorities@.len() == i,
            forall|j: int|
                0 <= j < i ==> authority_keys_from_seed(#[trigger] seeds_view(seeds@)[j]) == Some(
                    authorities@[j],
                ),
    {
        assert(seeds_view(seeds@)[i as int] == seeds@[i as int]@);
        match get_authority_keys_from_seed(seeds[i]) {
            Ok(keys) => {
                authorities.push(keys);
            },
            Err(e) => {
                return Err(e);
            },
        }
    }
    assert(authorities@ =~= derived_authorities(seeds_view(seeds@)));
    Ok(authorities)
}

impl Alternative {
    /// The topology that a name stands for: `dev` for the development
    /// chain, the empty name and `local` for the local testnet, and none for
    /// any other name.
    pub open spec fn spec_from(s: Seq<char>) -> Option<Alternative> {
        if s == "dev"@ {
            Some(Alternative::Development)
        } else if s.len() == 0 || s == "local"@ {
            Some(Alternative::LocalTestnet)
        } else {
            None
        }
    }

    /// Resolves a topology name. An unknown name resolves to nothing, never
    /// to a default.
    pub fn from(s: &str) -> (r: Option<Self>)
        ensures
            r == Self::spec_from(s@),
    {
        let name = String::from_str(s);
        if name == String::from_str("dev") {
            Some(Alternative::Development)
        } else if s.is_empty() || name == String::from_str("local") {
            Some(Alternative::LocalTestnet)
        } else {
            None
        }
    }

    /// The display name of the chain.
    pub open spec fn spec_name(self) -> Seq<char> {
        match self {
            Alternative::Development => "Development"@,
            Alternative::LocalTestnet => "Local Testnet"@,
        }
    }

    /// The identifier of the chain.
    pub open spec fn spec_id(self) -> Seq<char> {
        match self {
            Alternative::Development => "dev"@,
            Alternative::LocalTestnet => "local_testnet"@,
        }
    }

    /// The names whose accounts and stash accounts are endowed.
    pub open spec fn spec_endowed_names(self) -> Seq<Seq<char>> {
        match self {
            Alternative::Development => seq!["Alice"@, "Bob"@],
            Alternative::LocalTestnet => seq![
                "Alice"@,
                "Bob"@,
                "Charlie"@,
                "Dave"@,
                "Eve"@,
                "Ferdie"@,
            ],
        }
    }

    /// The seeds of the endowed accounts: every endowed name, then the stash
    /// variant of every endowed name.
    pub open spec fn spec_endowed_seeds(self) -> Seq<Seq<char>> {
        self.spec_endowed_names() + self.spec_endowed_names().map_values(
            |name: Seq<char>| stash_seed(name),
        )
    }

    /// The seeds of the initial authorities.
    pub open spec fn spec_authority_seeds(self) -> Seq<Seq<char>> {
        match self {
            Alternative::Development => seq!["Alice"@],
            Alternative::LocalTestnet => seq!["Alice"@, "Bob"@],
        }
    }

    /// The seed of the root account.
    pub open spec fn spec_root_seed(self) -> Seq<char> {
        "Alice"@
    }

    /// Every key of the topology can be derived.
    pub open spec fn derivable(self) -> bool {
        &&& authorities_derivable(self.spec_authority_seeds())
        &&& public_from_seed::<AccountId>(self.spec_root_seed()) is Some
        &&& accounts_derivable(self.spec_endowed_seeds())
    }

    /// The seeds of the initial authorities.
    pub fn authority_seeds(self) -> (seeds: Vec<&'static str>)
        ensures
            seeds_view(seeds@) == self.spec_authority_seeds(),
            seeds@.len() == match self {
                Alternative::Development => 1nat,
                Alternative::LocalTestnet => 2nat,
            },
    {
        let seeds = match self {
            Alternative::Development => vec!["Alice"],
            Alternative::LocalTestnet => vec!["Alice", "Bob"],
        };
        assert(seeds_view(seeds@) =~= self.spec_authority_seeds());
        seeds
    }

    /// The seed of the root account.
    pub fn root_seed(self) -> (seed: &'static str)
        ensures
            seed@ == self.spec_root_seed(),
    {
        "Alice"
    }

    /// The seeds of the endowed accounts: each endowed name, then each
    /// name's stash variant.
    pub fn endowed_seeds(self) -> (seeds: Vec<&'static str>)
        ensures
            seeds_view(seeds@) == self.spec_endowed_seeds(),
            seeds@.len() == 2 * self.spec_endowed_names().len(),
    {
        proof {
            reveal_strlit("//stash");
            reveal_strlit("Alice");
            reveal_strlit("Bob");
            reveal_strlit("Charlie");
            reveal_strlit("Dave");
            reveal_strlit("Eve");
            reveal_strlit("Ferdie");
            reveal_strlit("Alice//stash");
            reveal_strlit("Bob//stash");
            reveal_strlit("Charlie//stash");
            reveal_strlit("Dave//stash");
            reveal_strlit("Eve//stash");
            reveal_strlit("Ferdie//stash");
            assert("Alice//stash"@ =~= stash_seed("Alice"@));
            assert("Bob//stash"@ =~= stash_seed("Bob"@));
            assert("Charlie//stash"@ =~= stash_seed("Charlie"@));
            assert("Dave//stash"@ =~= stash_seed("Dave"@));
            assert("Eve//stash"@ =~= stash_seed("Eve"@));
            assert("Ferdie//stash"@ =~= stash_seed("Ferdie"@));
        }
        let seeds = match self {
            Alternative::Development => vec!["Alice", "Bob", "Alice//stash", "Bob//stash"],
            Alternative::LocalTestnet => vec![
                "Alice",
                "Bob",
                "Charlie",
                "Dave",
                "Eve",
                "Ferdie",
                "Alice//stash",
                "Bob//stash",
                "Charlie//stash",
                "Dave//stash",
                "Eve//stash",
                "Ferdie//stash",
            ],
        };
        assert(seeds_view(seeds@) =~= self.spec_endowed_seeds());
        seeds
    }

    /// Builds the genesis of the topology around the compiled runtime
    /// `code` and the query runtime `query_runtime`: derives the authorities,
    /// the root account and the endowed accounts from their seeds, and
    /// assembles the descriptor from them.
    ///
    /// It fails exactly where one of the topology's keys cannot be derived,
    /// and then produces no descriptor.
    pub fn genesis(self, code: Vec<u8>, query_runtime: Vec<u8>) -> (r: Result<
        GenesisConfig,
        ChainSpecError,
    >)
        ensures
            match r {
                Ok(genesis) => self.derivable() && genesis.is_testnet_genesis(
                    derived_authorities(self.spec_authority_seeds()),
                    public_from_seed::<AccountId>(self.spec_root_seed()).unwrap(),
                    derived_accounts(self.spec_endowed_seeds()),
                    code@,
                    query_runtime@,
                ),
                Err(e) => e == ChainSpecError::KeyDerivationFailure && !self.derivable(),
            },
    {
        let authorities = match authorities_from_seeds(&self.authority_seeds()) {
            Ok(authorities) => authorities,
            Err(e) => {
                return Err(e);
            },
        };
        let root_key = match get_from_seed::<AccountId>(self.root_seed()) {
            Ok(key) => key,
            Err(e) => {
                return Err(e);
            },
        };
        let endowed_accounts = match accounts_from_seeds(&self.endowed_seeds()) {
            Ok(accounts) => accounts,
            Err(e) => {
                return Err(e);
            },
        };
        Ok(testnet_genesis(authorities, root_key, endowed_accounts, code, query_runtime))
    }

    /// Gets the chain specification of the topology. This derives no key:
    /// the specification only names the topology its genesis is built from.
    pub fn load(self) -> (r: Result<ChainSpec, String>)
        ensures
            r matches Ok(spec) && spec.is_spec_of(self),
    {
        let (name, id) = match self {
            Alternative::Development => ("Development", "dev"),
            Alternative::LocalTestnet => ("Local Testnet", "local_testnet"),
        };
        Ok(
            ChainSpec {
                name: String::from_str(name),
                id: String::from_str(id),
                preset: self,
                boot_nodes: Vec::new(),
                telemetry_endpoints: None,
                protocol_id: None,
                consensus_engine: None,
                properties: None,
            },
        )
    }
}

/// The endowed seeds of a topology are pairwise different, and there are two
/// of them for every endowed name: four for the development chain, twelve
/// for the local testnet.
pub proof fn lemma_endowed_seeds_distinct(preset: Alternative)
    ensures
        preset.spec_endowed_seeds().no_duplicates(),
        preset.spec_endowed_seeds().len() == match preset {
            Alternative::Development => 4nat,
            Alternative::LocalTestnet => 12nat,
        },
{
    reveal_strlit("//stash");
    reveal_strlit("Alice");
    reveal_strlit("Bob");
    reveal_strlit("Charlie");
    reveal_strlit("Dave");
    reveal_strlit("Eve");
    reveal_strlit("Ferdie");
    let seeds = preset.spec_endowed_seeds();
    assert forall|i: int, j: int| 0 <= i < seeds.len() && 0 <= j < seeds.len() && i != j implies seeds[i]
        != seeds[j] by {
        let a = seeds[i];
        let b = seeds[j];
        if a.len() == b.len() {
            assert(a[0] != b[0]);
        }
    }
}

impl ChainSpec {
    /// The specification is the one of the given topology: it carries the
    /// topology's name and identifier, and nothing else is set.
    pub open spec fn is_spec_of(&self, preset: Alternative) -> bool {
        &&& self.name@ == preset.spec_name()
        &&& self.id@ == preset.spec_id()
        &&& self.preset == preset
        &&& self.boot_nodes@.len() == 0
        &&& self.telemetry_endpoints is None
        &&& self.protocol_id is None
        &&& self.consensus_engine is None
        &&& self.properties is None
    }
}

/// Resolves a topology name to its chain specification. A name that stands
/// for no topology is an error, and no specification is produced.
pub fn load_spec(id: &str) -> (r: Result<ChainSpec, ChainSpecError>)
    ensures
        match Alternative::spec_from(id@) {
            Some(preset) => r matches Ok(spec) && spec.is_spec_of(preset),
            None => r == Err::<ChainSpec, ChainSpecError>(ChainSpecError::UnknownTopology),
        },
{
    match Alternative::from(id) {
        Some(preset) => match preset.load() {
            Ok(spec) => Ok(spec),
            Err(_) => unreached(),
        },
        None => Err(ChainSpecError::UnknownTopology),
    }
}

/// The bytes of a compiled runtime that may be missing: what was read, or
/// nothing where the read failed.
pub fn blob_or_empty(read: Option<Vec<u8>>) -> (bytes: Vec<u8>)
    ensures
        bytes@ == match read {
            Some(found) => found@,
            None => Seq::<u8>::empty(),
        },
{
    match read {
        Some(found) => found,
        None => Vec::new(),
    }
}

} // verus!
