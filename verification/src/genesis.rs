use vstd::prelude::*;
use vstd::string::StringSliceAdditionalSpecFns;
use crate::curve::{small_scalar, Scalar};
use crate::elgamal;
use crate::elgamal::{decrypted, encrypted};
use crate::error::Error;
use crate::keys::{
    derived_address, key_failure, opening_scalar, padded_label, public_point, EncryptionKey,
    KeyScheme, ProofGenerationKey, Seed,
};
use crate::ledger::{
    ciphertext_encoding, ciphertext_failure, AuthorityId, Ciphertext, PkdAddress, PreparedVk,
    SigVerificationKey,
};
use crate::params::{base_encoding, CurveParams};

verus! {

/// The scheme by which the keys of genesis accounts are derived.
pub const GENESIS_SCHEME: KeyScheme = KeyScheme::DirectSeed;

/// The starting balance of the first account.
pub const ALICE_BALANCE: u32 = 100;

/// What each endowed account holds in the open at genesis.
pub const ENDOWMENT: u128 = 1152921504606846976;

/// The least time between two blocks, in seconds.
pub const MINIMUM_PERIOD: u64 = 10;

/// The fee that every transaction pays.
pub const TRANSACTION_BASE_FEE: u128 = 1;

/// The balance below which an account is removed.
pub const EXISTENTIAL_DEPOSIT: u128 = 500;

/// The ciphertext of a genesis balance: encrypted to the account's own key
/// under the diversifier base point, with the scalar one as randomness.
/// Equal balances of one account therefore have equal ciphertexts; this
/// holds for genesis entries only, which must be reproducible.
pub open spec fn genesis_ciphertext(seed: Seq<u8>, balance: u32) -> (Seq<u8>, Seq<u8>) {
    encrypted(
        balance,
        small_scalar(1),
        public_point(seed, GENESIS_SCHEME),
        base_encoding(GENESIS_SCHEME.base()),
    )
}

/// Whether the genesis ciphertext of a balance opens to that balance with
/// the account's own decryption scalar.
pub open spec fn opens_correctly(seed: Seq<u8>, balance: u32) -> bool {
    decrypted(
        genesis_ciphertext(seed, balance),
        opening_scalar(seed, GENESIS_SCHEME),
        base_encoding(GENESIS_SCHEME.base()),
    ) == Some(balance)
}

/// The genesis entry of an account, as address bytes and ciphertext bytes,
/// or the reason for which there is none: the account's key cannot be
/// derived, or its ciphertext does not open to the balance that went in.
pub open spec fn entry_outcome(seed: Seq<u8>, balance: u32) -> Result<(Seq<u8>, Seq<u8>), Error> {
    match derived_address(seed, GENESIS_SCHEME) {
        Err(e) => Err(e),
        Ok(address) => if opens_correctly(seed, balance) {
            Ok((address, ciphertext_encoding(genesis_ciphertext(seed, balance))))
        } else {
            Err(Error::DecryptionFailed)
        },
    }
}

/// Whether an entry is the one that `entry_outcome` names. Such an entry
/// can be read back: its address decodes to an encryption key, and its
/// ciphertext has 64 bytes that decode to two subgroup points.
pub open spec fn is_entry(entry: (PkdAddress, Ciphertext), seed: Seq<u8>, balance: u32) -> bool {
    &&& entry_outcome(seed, balance) == Ok::<(Seq<u8>, Seq<u8>), Error>((entry.0@, entry.1@))
    &&& key_failure(entry.0@) is None
    &&& ciphertext_failure(entry.1@) is None
}

/// The seeds of a list of accounts as bytes, each with its balance.
pub open spec fn account_views(accounts: Seq<(Seed, u32)>) -> Seq<(Seq<u8>, u32)> {
    Seq::new(accounts.len(), |i: int| (accounts[i].0@, accounts[i].1))
}

/// Whether a list holds the entries of a list of accounts: one entry for
/// each account, in the accounts' order.
pub open spec fn are_entries(
    entries: Seq<(PkdAddress, Ciphertext)>,
    accounts: Seq<(Seq<u8>, u32)>,
) -> bool {
    &&& entries.len() == accounts.len()
    &&& forall|i: int|
        0 <= i < accounts.len() ==> is_entry(#[trigger] entries[i], accounts[i].0, accounts[i].1)
}

/// Whether the account at `i` is the first of a list that has no entry,
/// and `error` is the reason for which it has none.
pub open spec fn fails_first_at(accounts: Seq<(Seq<u8>, u32)>, i: int, error: Error) -> bool {
    &&& 0 <= i < accounts.len()
    &&& entry_outcome(accounts[i].0, accounts[i].1) == Err::<(Seq<u8>, Seq<u8>), Error>(error)
    &&& forall|j: int|
        0 <= j < i ==> (#[trigger] entry_outcome(accounts[j].0, accounts[j].1)) is Ok
}

/// What assembling the entries of a list of accounts fails with, where
/// some account has no entry: the error of the first such account.
pub open spec fn assembly_fails_with(accounts: Seq<(Seq<u8>, u32)>, error: Error) -> bool {
    exists|i: int| #[trigger] fails_first_at(accounts, i, error)
}

/// The accounts that hold an encrypted balance from the start, with their
/// balances: the identity named Alice, with 100.
pub open spec fn genesis_accounts() -> Seq<(Seq<u8>, u32)> {
    seq![(padded_label("Alice".spec_bytes()), ALICE_BALANCE)]
}

/// Builds the genesis entry of one account: derives its address, encrypts
/// its balance to it, and accepts the ciphertext only after decrypting it
/// again with the account's own scalar and finding the balance that went
/// in.
pub fn genesis_entry(seed: &Seed, balance: u32, params: &CurveParams) -> (r: Result<
    (PkdAddress, Ciphertext),
    Error,
>)
    ensures
        match r {
            Ok(entry) => is_entry(entry, seed@, balance),
            Err(e) => entry_outcome(seed@, balance) == Err::<(Seq<u8>, Seq<u8>), Error>(e),
        },
{
    let generator = GENESIS_SCHEME.generator();
    let key = match EncryptionKey::from_seed(seed, GENESIS_SCHEME, params) {
        Ok(key) => key,
        Err(e) => {
            return Err(e);
        },
    };
    let encrypted = elgamal::Ciphertext::encrypt(
        balance,
        &Scalar::one(),
        &key.point(),
        generator,
        params,
    );
    let bdk = ProofGenerationKey::derive(seed, GENESIS_SCHEME).opening(GENESIS_SCHEME);
    match encrypted.decrypt(&bdk, generator, params) {
        Some(found) => {
            if found != balance {
                return Err(Error::DecryptionFailed);
            }
        },
        None => {
            return Err(Error::DecryptionFailed);
        },
    }
    Ok((PkdAddress::from_encryption_key(&key), Ciphertext::from_ciphertext(&encrypted)))
}

/// The genesis entry of the first account: the identity named Alice, with
/// a balance of 100.
pub fn alice_init(params: &CurveParams) -> (r: Result<(PkdAddress, Ciphertext), Error>)
    ensures
        match r {
            Ok(entry) => is_entry(entry, padded_label("Alice".spec_bytes()), ALICE_BALANCE),
            Err(e) => entry_outcome(padded_label("Alice".spec_bytes()), ALICE_BALANCE) == Err::<
                (Seq<u8>, Seq<u8>),
                Error,
            >(e),
        },
{
    let seed = Seed::from_label("Alice");
    genesis_entry(&seed, ALICE_BALANCE, params)
}

/// Builds the genesis entries of a list of accounts, in the order of the
/// list. The first account that has no entry ends the work with its error:
/// no account is left out.
pub fn assemble(accounts: &Vec<(Seed, u32)>, params: &CurveParams) -> (r: Result<
    Vec<(PkdAddress, Ciphertext)>,
    Error,
>)
    ensures
        match r {
            Ok(entries) => are_entries(entries@, account_views(accounts@)),
            Err(e) => assembly_fails_with(account_views(accounts@), e),
        },
{
    let ghost views = account_views(accounts@);
    let mut entries: Vec<(PkdAddress, Ciphertext)> = Vec::new();
    let mut i: usize = 0;
    while i < accounts.len()
        invariant
            i <= accounts@.len(),
            views == account_views(accounts@),
            entries@.len() == i,
            forall|j: int|
                0 <= j < i ==> is_entry(#[trigger] entries@[j], views[j].0, views[j].1),
        decreases accounts@.len() - i,
    {
        match genesis_entry(&accounts[i].0, accounts[i].1, params) {
            Ok(entry) => {
                entries.push(entry);
            },
            Err(e) => {
                proof {
                    let at = i as int;
                    assert forall|j: int| 0 <= j < at implies (#[trigger] entry_outcome(
                        views[j].0,
                        views[j].1,
                    )) is Ok by {
                        assert(is_entry(entries@[j], views[j].0, views[j].1));
                    }
                    assert(fails_first_at(views, at, e));
                }
                return Err(e);
            },
        }
        i += 1;
    }
    Ok(entries)
}

/// The accounts that hold an encrypted balance from the start.
pub fn initial_accounts() -> (accounts: Vec<(Seed, u32)>)
    ensures
        account_views(accounts@) == genesis_accounts(),
{
    let mut accounts: Vec<(Seed, u32)> = Vec::new();
    accounts.push((Seed::from_label("Alice"), ALICE_BALANCE));
    assert(account_views(accounts@) =~= genesis_accounts());
    accounts
}

/// The authorities that produce blocks.
#[derive(Clone, Debug, PartialEq, Eq)]
pub struct ConsensusConfig {
    pub authorities: Vec<AuthorityId>,
}

/// The timing of blocks.
#[derive(Clone, Copy, Debug, PartialEq, Eq)]
pub struct TimestampConfig {
    pub minimum_period: u64,
}

/// The accounts that have an index from the start.
#[derive(Clone, Debug, PartialEq, Eq)]
pub struct IndicesConfig {
    pub ids: Vec<SigVerificationKey>,
}

/// The fee schedule and the balances that are held in the open.
#[derive(Clone, Debug, PartialEq, Eq)]
pub struct BalancesConfig {
    pub transaction_base_fee: u128,
    pub transaction_byte_fee: u128,
    pub existential_deposit: u128,
    pub transfer_fee: u128,
    pub creation_fee: u128,
    pub balances: Vec<(SigVerificationKey, u128)>,
}

/// The account that may act for the whole chain.
#[derive(Clone, Copy, Debug, PartialEq, Eq)]
pub struct SudoConfig {
    pub key: SigVerificationKey,
}

/// The confidential part of the initial state: the encrypted balances and
/// the key with which transfers between them are verified.
#[derive(Clone, Debug, PartialEq, Eq)]
pub struct ConfTransferConfig {
    pub encrypted_balance: Vec<(PkdAddress, Ciphertext)>,
    pub verifying_key: PreparedVk,
}

/// The initial state of a chain.
#[derive(Clone, Debug, PartialEq, Eq)]
pub struct GenesisConfig {
    pub consensus: ConsensusConfig,
    pub timestamp: TimestampConfig,
    pub indices: IndicesConfig,
    pub balances: BalancesConfig,
    pub sudo: SudoConfig,
    pub conf_transfer: ConfTransferConfig,
}

/// The open balances at genesis: the endowment for each endowed account,
/// in the order of the accounts.
pub open spec fn endowments(accounts: Seq<SigVerificationKey>) -> Seq<(SigVerificationKey, u128)> {
    Seq::new(accounts.len(), |i: int| (accounts[i], ENDOWMENT))
}

/// Whether a configuration is the initial state of a test chain with these
/// authorities, endowed accounts, root key and verifying key.
pub open spec fn is_testnet_genesis(
    config: GenesisConfig,
    initial_authorities: Seq<AuthorityId>,
    endowed_accounts: Seq<SigVerificationKey>,
    root_key: SigVerificationKey,
    verifying_key: Seq<u8>,
) -> bool {
    &&& config.consensus.authorities@ == initial_authorities
    &&& config.timestamp.minimum_period == MINIMUM_PERIOD
    &&& config.indices.ids@ == endowed_accounts
    &&& config.balances.transaction_base_fee == TRANSACTION_BASE_FEE
    &&& config.balances.transaction_byte_fee == 0
    &&& config.balances.existential_deposit == EXISTENTIAL_DEPOSIT
    &&& config.balances.transfer_fee == 0
    &&& config.balances.creation_fee == 0
    &&& config.balances.balances@ == endowments(endowed_accounts)
    &&& config.sudo.key == root_key
    &&& are_entries(config.conf_transfer.encrypted_balance@, genesis_accounts())
    &&& config.conf_transfer.verifying_key@ == verifying_key
}

/// Builds the initial state of a test chain. The encrypted balances are the
/// entries of the chain's accounts, in the accounts' order, each accepted
/// only after it opened to the balance that went in; every endowed account
/// holds the endowment in the open. Fails, with the error of the first
/// account that has no entry, where an entry cannot be built.
pub fn testnet_genesis(
    initial_authorities: Vec<AuthorityId>,
    endowed_accounts: Vec<SigVerificationKey>,
    root_key: SigVerificationKey,
    verifying_key: PreparedVk,
    params: &CurveParams,
) -> (r: Result<GenesisConfig, Error>)
    ensures
        match r {
            Ok(config) => is_testnet_genesis(
                config,
                initial_authorities@,
                endowed_accounts@,
                root_key,
                verifying_key@,
            ),
            Err(e) => assembly_fails_with(genesis_accounts(), e),
        },
{
    let encrypted_balance = match assemble(&initial_accounts(), params) {
        Ok(entries) => entries,
        Err(e) => {
            return Err(e);
        },
    };
    let mut balances: Vec<(SigVerificationKey, u128)> = Vec::new();
    let mut i: usize = 0;
    while i < endowed_accounts.len()
        invariant
            i <= endowed_accounts@.len(),
            balances@ == endowments(endowed_accounts@).subrange(0, i as int),
        decreases endowed_accounts@.len() - i,
    {
        balances.push((endowed_accounts[i], ENDOWMENT));
        assert(balances@ =~= endowments(endowed_accounts@).subrange(0, i + 1));
        i += 1;
    }
    assert(balances@ =~= endowments(endowed_accounts@));
    Ok(
        GenesisConfig {
            consensus: ConsensusConfig { authorities: initial_authorities },
            timestamp: TimestampConfig { minimum_period: MINIMUM_PERIOD },
            indices: IndicesConfig { ids: endowed_accounts },
            balances: BalancesConfig {
                transaction_base_fee: TRANSACTION_BASE_FEE,
                transaction_byte_fee: 0,
                existential_deposit: EXISTENTIAL_DEPOSIT,
                transfer_fee: 0,
                creation_fee: 0,
                balances,
            },
            sudo: SudoConfig { key: root_key },
            conf_transfer: ConfTransferConfig { encrypted_balance, verifying_key },
        },
    )
}

} // verus!
