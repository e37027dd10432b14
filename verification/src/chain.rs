use vstd::prelude::*;
use vstd::string::StringSliceAdditionalSpecFns;
use crate::error::Error;
use crate::genesis::{
    assembly_fails_with, genesis_accounts, is_testnet_genesis, testnet_genesis, GenesisConfig,
};
use crate::keys::{padded_label, Seed};
use crate::ledger::{AuthorityId, PreparedVk, SigVerificationKey};
use crate::params::CurveParams;

verus! {

/// The chain that a node is asked to run. It comes from the command line
/// as a short name.
#[derive(Clone, Copy, Debug, PartialEq, Eq, Structural)]
pub enum Alternative {
    /// A chain for development, with Alice as its only authority.
    Development,
    /// A chain for local tests, with Alice and Bob as its authorities.
    LocalTestnet,
}

/// What a chain is made from: its names, the identities whose keys
/// produce blocks, and the accounts that its initial state endows.
#[derive(Clone, Debug, PartialEq, Eq)]
pub struct ChainPlan {
    /// The chain's name for people.
    pub name: &'static str,
    /// The chain's identifier.
    pub id: &'static str,
    /// The names of the identities whose keys produce blocks.
    pub authorities: Vec<&'static str>,
    /// The accounts that hold the endowment.
    pub endowed_accounts: Vec<SigVerificationKey>,
    /// The account that may act for the whole chain.
    pub root_key: SigVerificationKey,
}

/// Whether two strings have the same characters.
fn same_text(a: &str, b: &str) -> (same: bool)
    ensures
        same == (a@ == b@),
{
    let n = a.unicode_len();
    if n != b.unicode_len() {
        return false;
    }
    let mut i: usize = 0;
    while i < n
        invariant
            i <= n,
            n == a@.len(),
            n == b@.len(),
            forall|j: int| 0 <= j < i ==> a@[j] == b@[j],
        decreases n - i,
    {
        if a.get_char(i) != b.get_char(i) {
            return false;
        }
        i += 1;
    }
    assert(a@ =~= b@);
    true
}

/// The chain that a short name stands for: `dev` for the development
/// chain, `local` or nothing for the local test chain.
pub open spec fn named(s: Seq<char>) -> Option<Alternative> {
    if s == "dev"@ {
        Some(Alternative::Development)
    } else if s == ""@ || s == "local"@ {
        Some(Alternative::LocalTestnet)
    } else {
        None
    }
}

/// Whether a key is the key of the account named Alice: her name, padded
/// to 32 bytes.
pub open spec fn is_alice(key: SigVerificationKey) -> bool {
    key.bytes@ == padded_label("Alice".spec_bytes())
}

/// Whether a plan is the plan of a chain.
pub open spec fn is_plan_of(plan: ChainPlan, chain: Alternative) -> bool {
    &&& plan.endowed_accounts@.len() == 1
    &&& is_alice(plan.endowed_accounts@[0])
    &&& is_alice(plan.root_key)
    &&& match chain {
        Alternative::Development => {
            &&& plan.name@ == "Development"@
            &&& plan.id@ == "dev"@
            &&& plan.authorities@.len() == 1
            &&& plan.authorities@[0]@ == "Alice"@
        },
        Alternative::LocalTestnet => {
            &&& plan.name@ == "Local Testnet"@
            &&& plan.id@ == "local_testnet"@
            &&& plan.authorities@.len() == 2
            &&& plan.authorities@[0]@ == "Alice"@
            &&& plan.authorities@[1]@ == "Bob"@
        },
    }
}

impl Alternative {
    /// The plan of this chain. It never fails.
    pub fn load(self) -> (r: Result<ChainPlan, String>)
        ensures
            r is Ok,
            is_plan_of(r->Ok_0, self),
    {
        let alice = SigVerificationKey { bytes: Seed::from_label("Alice").to_bytes() };
        let mut endowed_accounts: Vec<SigVerificationKey> = Vec::new();
        endowed_accounts.push(alice);
        let mut authorities: Vec<&'static str> = Vec::new();
        authorities.push("Alice");
        match self {
            Alternative::Development => Ok(
                ChainPlan {
                    name: "Development",
                    id: "dev",
                    authorities,
                    endowed_accounts,
                    root_key: alice,
                },
            ),
            Alternative::LocalTestnet => {
                authorities.push("Bob");
                Ok(
                    ChainPlan {
                        name: "Local Testnet",
                        id: "local_testnet",
                        authorities,
                        endowed_accounts,
                        root_key: alice,
                    },
                )
            },
        }
    }

    /// The chain that a short name stands for, if it stands for one.
    pub fn from(s: &str) -> (r: Option<Self>)
        ensures
            r == named(s@),
    {
        if same_text(s, "dev") {
            Some(Alternative::Development)
        } else if same_text(s, "") || same_text(s, "local") {
            Some(Alternative::LocalTestnet)
        } else {
            None
        }
    }
}

impl ChainPlan {
    /// The initial state of the planned chain, once the keys of its
    /// authorities are known and its verifying key is loaded.
    pub fn genesis(
        &self,
        initial_authorities: Vec<AuthorityId>,
        verifying_key: PreparedVk,
        params: &CurveParams,
    ) -> (r: Result<GenesisConfig, Error>)
        ensures
            match r {
                Ok(config) => is_testnet_genesis(
                    config,
                    initial_authorities@,
                    self.endowed_accounts@,
                    self.root_key,
                    verifying_key@,
                ),
                Err(e) => assembly_fails_with(genesis_accounts(), e),
            },
    {
        let mut endowed: Vec<SigVerificationKey> = Vec::new();
        let mut i: usize = 0;
        while i < self.endowed_accounts.len()
            invariant
                i <= self.endowed_accounts@.len(),
                endowed@ == self.endowed_accounts@.subrange(0, i as int),
            decreases self.endowed_accounts@.len() - i,
        {
            endowed.push(self.endowed_accounts[i]);
            assert(endowed@ =~= self.endowed_accounts@.subrange(0, i + 1));
            i += 1;
        }
        assert(endowed@ =~= self.endowed_accounts@);
        testnet_genesis(initial_authorities, endowed, self.root_key, verifying_key, params)
    }
}

} // verus!
