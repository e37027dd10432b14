use zerochain::error::Error;
use zerochain::keys::{
    derive_address, EncryptionKey, KeyScheme, ProofGenerationKey, Seed, SpendingKey,
};
use zerochain::params::{CurveParams, Generator};

const ALICE_SEED: [u8; 32] = [
    65, 108, 105, 99, 101, 32, 32, 32, 32, 32, 32, 32, 32, 32, 32, 32, 32, 32, 32, 32, 32, 32, 32,
    32, 32, 32, 32, 32, 32, 32, 32, 32,
];

const ALICE_ASK: [u8; 32] = [
    189, 45, 106, 182, 74, 52, 11, 123, 130, 74, 118, 102, 235, 185, 153, 150, 133, 170, 65, 141,
    29, 185, 205, 254, 131, 63, 238, 112, 64, 146, 57, 1,
];

const ALICE_BDK: [u8; 32] = [
    214, 233, 173, 244, 177, 108, 50, 237, 205, 16, 7, 107, 194, 197, 185, 236, 17, 186, 170, 211,
    246, 135, 133, 33, 113, 203, 250, 37, 224, 146, 46, 7,
];

const ALICE_SPENDING_KEY: [u8; 32] = [
    118, 211, 58, 177, 133, 100, 51, 172, 212, 109, 147, 76, 203, 127, 70, 98, 114, 29, 209, 234,
    93, 197, 38, 54, 222, 46, 127, 10, 184, 84, 31, 3,
];

const ALICE_DIRECT: [u8; 32] = [
    14, 167, 106, 6, 144, 189, 73, 31, 3, 196, 112, 41, 111, 130, 2, 146, 43, 227, 108, 169, 164,
    63, 44, 103, 221, 166, 240, 69, 135, 80, 31, 9,
];

const ALICE_EXPANDED: [u8; 32] = [
    73, 91, 147, 24, 7, 99, 101, 205, 182, 172, 61, 51, 247, 238, 1, 216, 250, 40, 157, 33, 28, 9,
    229, 205, 130, 75, 0, 21, 123, 3, 81, 228,
];

const BOB_DIRECT: [u8; 32] = [
    66, 155, 82, 24, 117, 227, 157, 28, 28, 69, 26, 174, 91, 189, 173, 213, 158, 2, 182, 242, 197,
    241, 47, 213, 213, 230, 6, 239, 50, 192, 4, 138,
];

const IDENTITY: [u8; 32] = [
    1, 0, 0, 0, 0, 0, 0, 0, 0, 0, 0, 0, 0, 0, 0, 0, 0, 0, 0, 0, 0, 0, 0, 0, 0, 0, 0, 0, 0, 0, 0, 0,
];

#[test]
fn seed_from_label_pads_with_spaces() {
    assert_eq!(Seed::from_label("Alice").to_bytes(), ALICE_SEED);
    assert_eq!(Seed::from_label("").to_bytes(), [32u8; 32]);
}

#[test]
fn seed_from_label_cuts_a_long_label() {
    let long = "0123456789abcdefghijklmnopqrstuvwxyz";
    let seed = Seed::from_label(long).to_bytes();
    assert_eq!(&seed[..], &long.as_bytes()[..32]);
    let exact = "0123456789abcdefghijklmnopqrstuv";
    assert_eq!(&Seed::from_label(exact).to_bytes()[..], exact.as_bytes());
}

#[test]
fn seed_from_slice_takes_exactly_32_bytes() {
    assert_eq!(Seed::from_slice(&ALICE_SEED).unwrap().to_bytes(), ALICE_SEED);
    assert_eq!(Seed::from_slice(&ALICE_SEED[..31]).err(), Some(Error::InvalidSeedLength));
    assert_eq!(Seed::from_slice(&[0u8; 33]).err(), Some(Error::InvalidSeedLength));
    assert_eq!(Seed::from_slice(&[]).err(), Some(Error::InvalidSeedLength));
}

#[test]
fn seed_from_bytes_keeps_the_bytes() {
    assert_eq!(Seed::from_bytes(ALICE_SEED).to_bytes(), ALICE_SEED);
}

#[test]
fn proof_generation_key_expands_the_seed() {
    let key = ProofGenerationKey::from_seed(&Seed::from_label("Alice"));
    assert_eq!(key.ask().to_bytes(), ALICE_ASK);
    assert_eq!(key.bdk().to_bytes(), ALICE_BDK);
    assert_eq!(key.opening(KeyScheme::DirectSeed).to_bytes(), ALICE_BDK);
    assert_eq!(key.opening(KeyScheme::ExpandedSpendingKey).to_bytes(), ALICE_ASK);
}

#[test]
fn spending_key_expands_the_seed() {
    let key = SpendingKey::from_seed(&Seed::from_label("Alice"));
    assert_eq!(key.scalar().to_bytes(), ALICE_SPENDING_KEY);
}

#[test]
fn derive_follows_the_scheme() {
    let seed = Seed::from_label("Alice");
    let direct = ProofGenerationKey::derive(&seed, KeyScheme::DirectSeed);
    assert_eq!(direct.bdk().to_bytes(), ALICE_BDK);
    let expanded = ProofGenerationKey::derive(&seed, KeyScheme::ExpandedSpendingKey);
    let by_hand = ProofGenerationKey::from_spending_key(&SpendingKey::from_seed(&seed));
    assert_eq!(expanded.ask().to_bytes(), by_hand.ask().to_bytes());
    assert_eq!(expanded.bdk().to_bytes(), by_hand.bdk().to_bytes());
    assert_ne!(expanded.ask().to_bytes(), direct.ask().to_bytes());
}

#[test]
fn scheme_names_its_base_point() {
    assert_eq!(KeyScheme::DirectSeed.generator(), Generator::Diversifier);
    assert_eq!(KeyScheme::ExpandedSpendingKey.generator(), Generator::SpendingKey);
}

#[test]
fn derive_address_of_alice() {
    let params = CurveParams::new().unwrap();
    assert_eq!(derive_address(&ALICE_SEED, KeyScheme::DirectSeed, &params), Ok(ALICE_DIRECT));
    assert_eq!(
        derive_address(&ALICE_SEED, KeyScheme::ExpandedSpendingKey, &params),
        Ok(ALICE_EXPANDED)
    );
}

#[test]
fn derived_address_decodes_to_a_key() {
    let params = CurveParams::new().unwrap();
    for scheme in [KeyScheme::DirectSeed, KeyScheme::ExpandedSpendingKey] {
        let address = derive_address(&ALICE_SEED, scheme, &params).unwrap();
        assert_eq!(EncryptionKey::from_bytes(address).unwrap().to_bytes(), address);
    }
}

#[test]
fn derive_address_is_deterministic() {
    let params = CurveParams::new().unwrap();
    let first = derive_address(&ALICE_SEED, KeyScheme::DirectSeed, &params);
    let second = derive_address(&ALICE_SEED, KeyScheme::DirectSeed, &params);
    assert_eq!(first, second);
}

#[test]
fn derive_address_differs_between_seeds() {
    let params = CurveParams::new().unwrap();
    let bob = Seed::from_label("Bob").to_bytes();
    let address = derive_address(&bob, KeyScheme::DirectSeed, &params).unwrap();
    assert_eq!(address, BOB_DIRECT);
    assert_ne!(address, ALICE_DIRECT);
}

#[test]
fn derive_address_rejects_a_seed_of_wrong_length() {
    let params = CurveParams::new().unwrap();
    assert_eq!(
        derive_address(&ALICE_SEED[..5], KeyScheme::DirectSeed, &params),
        Err(Error::InvalidSeedLength)
    );
    assert_eq!(
        derive_address(&[7u8; 64], KeyScheme::ExpandedSpendingKey, &params),
        Err(Error::InvalidSeedLength)
    );
}

#[test]
fn encryption_key_from_seed_is_the_address() {
    let params = CurveParams::new().unwrap();
    let seed = Seed::from_label("Alice");
    let key = EncryptionKey::from_seed(&seed, KeyScheme::DirectSeed, &params).unwrap();
    assert_eq!(key.to_bytes(), ALICE_DIRECT);
    assert_eq!(key.point().to_bytes(), ALICE_DIRECT);
}

#[test]
fn encryption_key_is_the_opening_scalar_times_the_base() {
    let params = CurveParams::new().unwrap();
    let seed = Seed::from_label("Alice");
    let bdk = ProofGenerationKey::from_seed(&seed).bdk();
    let point = params.generator(Generator::Diversifier).mul(&bdk);
    assert_eq!(point.to_bytes(), ALICE_DIRECT);
}

#[test]
fn encryption_key_from_bytes_checks_the_point() {
    assert_eq!(EncryptionKey::from_bytes(ALICE_DIRECT).unwrap().to_bytes(), ALICE_DIRECT);
    assert_eq!(EncryptionKey::from_bytes([255u8; 32]).err(), Some(Error::PointNotOnCurve));
    let outside: [u8; 32] = [
        15, 232, 174, 177, 0, 180, 146, 24, 32, 71, 131, 129, 71, 63, 58, 183, 228, 160, 95, 226,
        54, 4, 123, 84, 239, 191, 87, 28, 59, 112, 180, 55,
    ];
    assert_eq!(EncryptionKey::from_bytes(outside).err(), Some(Error::SubgroupCheckFailed));
}

#[test]
fn encryption_key_is_never_the_neutral_element() {
    assert_eq!(EncryptionKey::from_bytes(IDENTITY).err(), Some(Error::SubgroupCheckFailed));
    let id = zerochain::curve::Point::identity();
    assert_eq!(EncryptionKey::from_point(id).err(), Some(Error::SubgroupCheckFailed));
}
