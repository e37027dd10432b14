use zerochain::chain::{Alternative, ChainPlan};
use zerochain::error::Error;
use zerochain::genesis::{
    alice_init, assemble, genesis_entry, initial_accounts, testnet_genesis, ALICE_BALANCE,
    ENDOWMENT, EXISTENTIAL_DEPOSIT, GENESIS_SCHEME, MINIMUM_PERIOD, TRANSACTION_BASE_FEE,
};
use zerochain::keys::{derive_address, KeyScheme, ProofGenerationKey, Seed};
use zerochain::ledger::{AuthorityId, Ciphertext, PkdAddress, PreparedVk, SigVerificationKey};
use zerochain::params::{CurveParams, Generator, DIVERSIFIER_BASE};

const ALICE_SEED: [u8; 32] = *b"Alice                           ";

const BOB_SEED: [u8; 32] = *b"Bob                             ";

const ALICE_DIRECT: [u8; 32] = [
    14, 167, 106, 6, 144, 189, 73, 31, 3, 196, 112, 41, 111, 130, 2, 146, 43, 227, 108, 169, 164,
    63, 44, 103, 221, 166, 240, 69, 135, 80, 31, 9,
];

const ALICE_RIGHT: [u8; 32] = [
    38, 130, 12, 16, 22, 225, 95, 146, 42, 252, 85, 148, 172, 217, 31, 67, 120, 116, 177, 181, 59,
    202, 236, 16, 67, 130, 84, 104, 250, 231, 152, 12,
];

const BOB_DIRECT: [u8; 32] = [
    66, 155, 82, 24, 117, 227, 157, 28, 28, 69, 26, 174, 91, 189, 173, 213, 158, 2, 182, 242, 197,
    241, 47, 213, 213, 230, 6, 239, 50, 192, 4, 138,
];

fn alice_stored() -> Vec<u8> {
    let mut bytes = DIVERSIFIER_BASE.to_vec();
    bytes.extend_from_slice(&ALICE_RIGHT);
    bytes
}

fn opens_to(entry: &(PkdAddress, Ciphertext), label: &str, params: &CurveParams) -> Option<u32> {
    let bdk = ProofGenerationKey::from_seed(&Seed::from_label(label)).bdk();
    entry.1.to_ciphertext().unwrap().decrypt(&bdk, Generator::Diversifier, params)
}

#[test]
fn genesis_constants() {
    assert_eq!(ALICE_BALANCE, 100);
    assert_eq!(ENDOWMENT, 1u128 << 60);
    assert_eq!(MINIMUM_PERIOD, 10);
    assert_eq!(TRANSACTION_BASE_FEE, 1);
    assert_eq!(EXISTENTIAL_DEPOSIT, 500);
    assert_eq!(GENESIS_SCHEME, KeyScheme::DirectSeed);
}

#[test]
fn alice_init_is_the_entry_of_alice_with_100() {
    let params = CurveParams::new().unwrap();
    let (address, ciphertext) = alice_init(&params).unwrap();
    assert_eq!(address.to_bytes(), ALICE_DIRECT);
    assert_eq!(ciphertext.as_bytes(), &alice_stored());
}

#[test]
fn alice_init_end_to_end() {
    let params = CurveParams::new().unwrap();
    let entry = alice_init(&params).unwrap();
    assert_eq!(opens_to(&entry, "Alice", &params), Some(100));
    assert_eq!(entry.0.to_encryption_key().unwrap().to_bytes(), ALICE_DIRECT);
}

#[test]
fn alice_init_is_reproducible() {
    let params = CurveParams::new().unwrap();
    assert_eq!(alice_init(&params), alice_init(&params));
}

#[test]
fn genesis_entry_encrypts_to_the_accounts_own_key() {
    let params = CurveParams::new().unwrap();
    let entry = genesis_entry(&Seed::from_bytes(BOB_SEED), 7, &params).unwrap();
    assert_eq!(entry.0.to_bytes(), BOB_DIRECT);
    assert_eq!(opens_to(&entry, "Bob", &params), Some(7));
    assert_eq!(opens_to(&entry, "Alice", &params), None);
}

#[test]
fn genesis_entry_refuses_a_balance_that_does_not_open() {
    let params = CurveParams::new().unwrap();
    let seed = Seed::from_bytes(ALICE_SEED);
    assert_eq!(genesis_entry(&seed, 4096, &params), Err(Error::DecryptionFailed));
}

#[test]
fn assemble_keeps_the_order_of_the_accounts() {
    let params = CurveParams::new().unwrap();
    let accounts = vec![
        (Seed::from_label("Bob"), 7u32),
        (Seed::from_label("Alice"), 100),
        (Seed::from_label("Bob"), 0),
    ];
    let entries = assemble(&accounts, &params).unwrap();
    assert_eq!(entries.len(), 3);
    assert_eq!(entries[0].0.to_bytes(), BOB_DIRECT);
    assert_eq!(entries[1].0.to_bytes(), ALICE_DIRECT);
    assert_eq!(entries[2].0.to_bytes(), BOB_DIRECT);
    assert_eq!(entries[1].1.as_bytes(), &alice_stored());
    assert_eq!(opens_to(&entries[0], "Bob", &params), Some(7));
    assert_eq!(opens_to(&entries[2], "Bob", &params), Some(0));
    assert_eq!(entries, assemble(&accounts, &params).unwrap());
}

#[test]
fn assemble_of_no_accounts_is_empty() {
    let params = CurveParams::new().unwrap();
    assert_eq!(assemble(&Vec::new(), &params), Ok(Vec::new()));
}

#[test]
fn assemble_stops_at_the_first_account_without_an_entry() {
    let params = CurveParams::new().unwrap();
    let accounts = vec![(Seed::from_label("Alice"), 100u32), (Seed::from_label("Bob"), 5000)];
    assert_eq!(assemble(&accounts, &params), Err(Error::DecryptionFailed));
}

fn some_authorities() -> Vec<AuthorityId> {
    vec![AuthorityId { bytes: [1u8; 32] }, AuthorityId { bytes: [2u8; 32] }]
}

#[test]
fn testnet_genesis_fills_the_initial_state() {
    let params = CurveParams::new().unwrap();
    let alice = SigVerificationKey { bytes: ALICE_SEED };
    let bob = SigVerificationKey { bytes: BOB_SEED };
    let vk = PreparedVk::from_bytes(vec![9, 8, 7]);
    let config =
        testnet_genesis(some_authorities(), vec![alice, bob], bob, vk.clone(), &params).unwrap();
    assert_eq!(config.consensus.authorities, some_authorities());
    assert_eq!(config.timestamp.minimum_period, 10);
    assert_eq!(config.indices.ids, vec![alice, bob]);
    assert_eq!(config.balances.transaction_base_fee, 1);
    assert_eq!(config.balances.transaction_byte_fee, 0);
    assert_eq!(config.balances.existential_deposit, 500);
    assert_eq!(config.balances.transfer_fee, 0);
    assert_eq!(config.balances.creation_fee, 0);
    assert_eq!(config.balances.balances, vec![(alice, 1u128 << 60), (bob, 1u128 << 60)]);
    assert_eq!(config.sudo.key, bob);
    assert_eq!(config.conf_transfer.verifying_key, vk);
}

#[test]
fn testnet_genesis_holds_the_entries_of_its_accounts() {
    let params = CurveParams::new().unwrap();
    let alice = SigVerificationKey { bytes: ALICE_SEED };
    let vk = PreparedVk::load_embedded();
    let config = testnet_genesis(Vec::new(), Vec::new(), alice, vk, &params).unwrap();
    let entries = &config.conf_transfer.encrypted_balance;
    assert_eq!(entries.len(), 1);
    assert_eq!(entries[0], alice_init(&params).unwrap());
    assert_eq!(entries, &assemble(&initial_accounts(), &params).unwrap());
    assert!(config.balances.balances.is_empty());
    assert!(config.indices.ids.is_empty());
}

#[test]
fn every_encrypted_balance_of_the_genesis_opens() {
    let params = CurveParams::new().unwrap();
    let alice = SigVerificationKey { bytes: ALICE_SEED };
    let vk = PreparedVk::load_embedded();
    let config = testnet_genesis(Vec::new(), vec![alice], alice, vk, &params).unwrap();
    let accounts = initial_accounts();
    let entries = &config.conf_transfer.encrypted_balance;
    assert_eq!(entries.len(), accounts.len());
    for (entry, (seed, balance)) in entries.iter().zip(accounts.iter()) {
        let key = entry.0.to_encryption_key().unwrap();
        assert_eq!(Ok(key.to_bytes()), derive_address(&seed.to_bytes(), GENESIS_SCHEME, &params));
        let bdk = ProofGenerationKey::derive(seed, GENESIS_SCHEME).opening(GENESIS_SCHEME);
        let ciphertext = entry.1.to_ciphertext().unwrap();
        assert_eq!(ciphertext.decrypt(&bdk, GENESIS_SCHEME.generator(), &params), Some(*balance));
    }
}

#[test]
fn initial_accounts_are_alice_with_100() {
    let accounts = initial_accounts();
    assert_eq!(accounts.len(), 1);
    assert_eq!(accounts[0].0.to_bytes(), ALICE_SEED);
    assert_eq!(accounts[0].1, 100);
}

#[test]
fn genesis_entry_can_be_read_back() {
    let params = CurveParams::new().unwrap();
    let (address, ciphertext) = genesis_entry(&Seed::from_bytes(BOB_SEED), 3, &params).unwrap();
    assert_eq!(address.to_encryption_key().unwrap().to_bytes(), BOB_DIRECT);
    assert_eq!(ciphertext.as_bytes().len(), 64);
    let points = ciphertext.to_ciphertext().unwrap();
    assert_eq!(&points.left().to_bytes()[..], &ciphertext.as_bytes()[..32]);
    assert_eq!(&points.right().to_bytes()[..], &ciphertext.as_bytes()[32..]);
}

#[test]
fn alternative_from_names() {
    assert_eq!(Alternative::from("dev"), Some(Alternative::Development));
    assert_eq!(Alternative::from("local"), Some(Alternative::LocalTestnet));
    assert_eq!(Alternative::from(""), Some(Alternative::LocalTestnet));
}

#[test]
fn alternative_from_other_names_is_none() {
    assert_eq!(Alternative::from("Dev"), None);
    assert_eq!(Alternative::from("development"), None);
    assert_eq!(Alternative::from("de"), None);
    assert_eq!(Alternative::from("local_testnet"), None);
    assert_eq!(Alternative::from(" "), None);
    assert_eq!(Alternative::from("staging"), None);
}

fn plan_of(chain: Alternative) -> ChainPlan {
    chain.load().unwrap()
}

#[test]
fn development_has_alice_as_its_only_authority() {
    let plan = plan_of(Alternative::Development);
    assert_eq!(plan.name, "Development");
    assert_eq!(plan.id, "dev");
    assert_eq!(plan.authorities, vec!["Alice"]);
    assert_eq!(plan.endowed_accounts, vec![SigVerificationKey { bytes: ALICE_SEED }]);
    assert_eq!(plan.root_key, SigVerificationKey { bytes: ALICE_SEED });
}

#[test]
fn local_testnet_has_alice_and_bob_as_authorities() {
    let plan = plan_of(Alternative::LocalTestnet);
    assert_eq!(plan.name, "Local Testnet");
    assert_eq!(plan.id, "local_testnet");
    assert_eq!(plan.authorities, vec!["Alice", "Bob"]);
    assert_eq!(plan.endowed_accounts, vec![SigVerificationKey { bytes: ALICE_SEED }]);
    assert_eq!(plan.root_key, SigVerificationKey { bytes: ALICE_SEED });
}

#[test]
fn plan_builds_its_genesis() {
    let params = CurveParams::new().unwrap();
    let plan = plan_of(Alternative::LocalTestnet);
    let vk = PreparedVk::from_bytes(vec![5u8; 70]);
    let config = plan.genesis(some_authorities(), vk.clone(), &params).unwrap();
    let alice = SigVerificationKey { bytes: ALICE_SEED };
    let direct =
        testnet_genesis(some_authorities(), vec![alice], alice, vk, &params).unwrap();
    assert_eq!(config, direct);
    assert_eq!(config.balances.balances, vec![(alice, 1u128 << 60)]);
    assert_eq!(config.conf_transfer.encrypted_balance[0].0.to_bytes(), ALICE_DIRECT);
}
