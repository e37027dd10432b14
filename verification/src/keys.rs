use vstd::prelude::*;
use vstd::string::StringSliceAdditionalSpecFns;
use crate::curve::{
    decoding_failure, identity_encoding, point_multiple, uniform_scalar, Point, Scalar,
};
use crate::error::Error;
use crate::params::{base_encoding, CurveParams, Generator};

verus! {

/// The 64-byte BLAKE2b digest of an input under a 16-byte personalisation,
/// as `blake2b_simd::Params::hash` computes it.
pub uninterp spec fn blake2b_512(personal: Seq<u8>, input: Seq<u8>) -> Seq<u8>;

/// The personalisation under which seeds are expanded into scalars.
pub const EXPAND_PERSONAL: [u8; 16] = [
    122, 101, 114, 111, 99, 104, 97, 105, 110, 95, 101, 120, 112, 97, 110, 100,
];

/// The byte with which a label shorter than a seed is filled up: a space.
pub const LABEL_PAD: u8 = 32;

/// Hashes with `blake2b_simd::Params::hash`, with a digest of 64 bytes and
/// the given personalisation. Trusted: the digest is what `blake2b_512`
/// names.
#[verifier::external_body]
fn personal_hash(personal: &[u8; 16], input: &[u8; 33]) -> (digest: [u8; 64])
    ensures
        digest@ == blake2b_512(personal@, input@),
{
    *blake2b_simd::Params::new().hash_length(64).personal(personal).hash(input).as_array()
}

/// A label padded with spaces, or cut, to the length of a seed.
pub open spec fn padded_label(label: Seq<u8>) -> Seq<u8> {
    Seq::new(
        32,
        |i: int|
            if i < label.len() {
                label[i]
            } else {
                LABEL_PAD
            },
    )
}

/// The scalar that 32 secret bytes expand to under a one-byte tag: the
/// personalised digest of the bytes followed by the tag, reduced into the
/// scalar field.
pub open spec fn expanded(secret: Seq<u8>, tag: u8) -> Seq<u8> {
    uniform_scalar(blake2b_512(EXPAND_PERSONAL@, secret + seq![tag]))
}

/// The tag of the spend-authorizing scalar.
pub const TAG_ASK: u8 = 0;

/// The tag of the balance-decryption scalar.
pub const TAG_BDK: u8 = 1;

/// The tag of the spending key.
pub const TAG_SPENDING_KEY: u8 = 2;

/// Expands 32 secret bytes into a scalar under a tag.
fn expand(secret: &[u8; 32], tag: u8) -> (s: Scalar)
    ensures
        s@ == expanded(secret@, tag),
{
    let mut input = [0u8; 33];
    let mut i: usize = 0;
    while i < 32
        invariant
            i <= 32,
            forall|j: int| 0 <= j < i ==> input@[j] == secret@[j],
        decreases 32 - i,
    {
        input[i] = secret[i];
        i += 1;
    }
    input[32] = tag;
    assert(input@ =~= secret@ + seq![tag]);
    let digest = personal_hash(&EXPAND_PERSONAL, &input);
    Scalar::from_uniform_bytes(&digest)
}

/// The root secret of one identity: 32 bytes.
#[derive(Clone, Copy, Debug)]
pub struct Seed {
    bytes: [u8; 32],
}

impl View for Seed {
    type V = Seq<u8>;

    closed spec fn view(&self) -> Seq<u8> {
        self.bytes@
    }
}

impl Seed {
    /// A seed of exactly these 32 bytes.
    pub fn from_bytes(bytes: [u8; 32]) -> (seed: Seed)
        ensures
            seed@ == bytes@,
    {
        Seed { bytes }
    }

    /// A seed from a byte string, which must be 32 bytes long.
    pub fn from_slice(bytes: &[u8]) -> (r: Result<Seed, Error>)
        ensures
            match r {
                Ok(seed) => bytes@.len() == 32 && seed@ == bytes@,
                Err(e) => bytes@.len() != 32 && e == Error::InvalidSeedLength,
            },
    {
        if bytes.len() != 32 {
            return Err(Error::InvalidSeedLength);
        }
        let mut out = [0u8; 32];
        let mut i: usize = 0;
        while i < 32
            invariant
                i <= 32,
                bytes@.len() == 32,
                forall|j: int| 0 <= j < i ==> out@[j] == bytes@[j],
            decreases 32 - i,
        {
            out[i] = bytes[i];
            i += 1;
        }
        assert(out@ =~= bytes@);
        Ok(Seed { bytes: out })
    }

    /// The seed of a named identity: the label's bytes, filled up with
    /// spaces to 32 bytes, or cut after the 32nd.
    pub fn from_label(label: &str) -> (seed: Seed)
        ensures
            seed@ == padded_label(label.spec_bytes()),
    {
        let bytes = label.as_bytes();
        let mut out = [LABEL_PAD; 32];
        let mut i: usize = 0;
        while i < 32 && i < bytes.len()
            invariant
                i <= 32,
                i <= bytes@.len(),
                bytes@ == label.spec_bytes(),
                forall|j: int| 0 <= j < i ==> out@[j] == bytes@[j],
                forall|j: int| i <= j < 32 ==> out@[j] == LABEL_PAD,
            decreases 32 - i,
        {
            out[i] = bytes[i];
            i += 1;
        }
        assert(out@ =~= padded_label(label.spec_bytes()));
        Seed { bytes: out }
    }

    /// The seed's bytes.
    pub fn to_bytes(&self) -> (bytes: [u8; 32])
        ensures
            bytes@ == self@,
    {
        self.bytes
    }
}

/// The two ways in which keys are derived from a seed. A deployment uses
/// one of them throughout: a key derived in one way does not open what was
/// encrypted to the key derived in the other.
#[derive(Clone, Copy, Debug, PartialEq, Eq, Structural)]
pub enum KeyScheme {
    /// The seed expands into a spending key, that into a pair of scalars,
    /// and the spend-authorizing scalar times the spending-key base point
    /// is the public key.
    ExpandedSpendingKey,
    /// The seed expands directly into a pair of scalars, and the
    /// balance-decryption scalar times the diversifier base point is the
    /// public key.
    DirectSeed,
}

impl KeyScheme {
    /// The role whose base point the scheme's public keys are multiples of.
    pub open spec fn base(self) -> Generator {
        match self {
            KeyScheme::ExpandedSpendingKey => Generator::SpendingKey,
            KeyScheme::DirectSeed => Generator::Diversifier,
        }
    }

    /// The role whose base point the scheme's public keys are multiples of.
    pub fn generator(self) -> (g: Generator)
        ensures
            g == self.base(),
    {
        match self {
            KeyScheme::ExpandedSpendingKey => Generator::SpendingKey,
            KeyScheme::DirectSeed => Generator::Diversifier,
        }
    }
}

/// The bytes that a scheme expands into the pair of scalars: the seed
/// itself, or the spending key derived from it.
pub open spec fn pair_source(seed: Seq<u8>, scheme: KeyScheme) -> Seq<u8> {
    match scheme {
        KeyScheme::ExpandedSpendingKey => expanded(seed, TAG_SPENDING_KEY),
        KeyScheme::DirectSeed => seed,
    }
}

/// The scalar whose multiple of the scheme's base point is the public key,
/// and which opens what is encrypted to that key.
pub open spec fn opening_scalar(seed: Seq<u8>, scheme: KeyScheme) -> Seq<u8> {
    match scheme {
        KeyScheme::ExpandedSpendingKey => expanded(pair_source(seed, scheme), TAG_ASK),
        KeyScheme::DirectSeed => expanded(pair_source(seed, scheme), TAG_BDK),
    }
}

/// The encoding of the public key of a seed.
pub open spec fn public_point(seed: Seq<u8>, scheme: KeyScheme) -> Seq<u8> {
    point_multiple(base_encoding(scheme.base()), opening_scalar(seed, scheme))
}

/// What deriving the address of a seed gives: the encoding of its public
/// key, unless the seed has the wrong length or the key is the neutral
/// element.
pub open spec fn derived_address(seed: Seq<u8>, scheme: KeyScheme) -> Result<Seq<u8>, Error> {
    if seed.len() != 32 {
        Err(Error::InvalidSeedLength)
    } else if public_point(seed, scheme) == identity_encoding() {
        Err(Error::SubgroupCheckFailed)
    } else {
        Ok(public_point(seed, scheme))
    }
}

/// The secret scalar from which proof-generation keys are expanded.
#[derive(Clone, Copy, Debug)]
pub struct SpendingKey {
    scalar: Scalar,
}

impl View for SpendingKey {
    type V = Seq<u8>;

    closed spec fn view(&self) -> Seq<u8> {
        self.scalar@
    }
}

impl SpendingKey {
    /// The spending key of a seed.
    pub fn from_seed(seed: &Seed) -> (key: SpendingKey)
        ensures
            key@ == expanded(seed@, TAG_SPENDING_KEY),
    {
        SpendingKey { scalar: expand(&seed.bytes, TAG_SPENDING_KEY) }
    }

    /// The key as a scalar.
    pub fn scalar(&self) -> (s: Scalar)
        ensures
            s@ == self@,
    {
        self.scalar
    }
}

/// The pair of secret scalars of an identity: one authorizes spends, the
/// other decrypts balances.
#[derive(Clone, Copy, Debug)]
pub struct ProofGenerationKey {
    ask: Scalar,
    bdk: Scalar,
}

impl ProofGenerationKey {
    /// The encoding of the spend-authorizing scalar.
    pub closed spec fn spec_ask(&self) -> Seq<u8> {
        self.ask@
    }

    /// The encoding of the balance-decryption scalar.
    pub closed spec fn spec_bdk(&self) -> Seq<u8> {
        self.bdk@
    }

    /// The pair that a seed expands into directly.
    pub fn from_seed(seed: &Seed) -> (key: ProofGenerationKey)
        ensures
            key.spec_ask() == expanded(seed@, TAG_ASK),
            key.spec_bdk() == expanded(seed@, TAG_BDK),
    {
        ProofGenerationKey {
            ask: expand(&seed.bytes, TAG_ASK),
            bdk: expand(&seed.bytes, TAG_BDK),
        }
    }

    /// The pair that a spending key expands into.
    pub fn from_spending_key(key: &SpendingKey) -> (pair: ProofGenerationKey)
        ensures
            pair.spec_ask() == expanded(key@, TAG_ASK),
            pair.spec_bdk() == expanded(key@, TAG_BDK),
    {
        let bytes = key.scalar.to_bytes();
        ProofGenerationKey { ask: expand(&bytes, TAG_ASK), bdk: expand(&bytes, TAG_BDK) }
    }

    /// The pair of a seed under a scheme.
    pub fn derive(seed: &Seed, scheme: KeyScheme) -> (pair: ProofGenerationKey)
        ensures
            pair.spec_ask() == expanded(pair_source(seed@, scheme), TAG_ASK),
            pair.spec_bdk() == expanded(pair_source(seed@, scheme), TAG_BDK),
            pair.spec_opening(scheme) == opening_scalar(seed@, scheme),
    {
        match scheme {
            KeyScheme::ExpandedSpendingKey => ProofGenerationKey::from_spending_key(
                &SpendingKey::from_seed(seed),
            ),
            KeyScheme::DirectSeed => ProofGenerationKey::from_seed(seed),
        }
    }

    /// The spend-authorizing scalar.
    pub fn ask(&self) -> (s: Scalar)
        ensures
            s@ == self.spec_ask(),
    {
        self.ask
    }

    /// The balance-decryption scalar.
    pub fn bdk(&self) -> (s: Scalar)
        ensures
            s@ == self.spec_bdk(),
    {
        self.bdk
    }

    /// The scalar of the pair that opens what is encrypted to the scheme's
    /// public key.
    pub open spec fn spec_opening(&self, scheme: KeyScheme) -> Seq<u8> {
        match scheme {
            KeyScheme::ExpandedSpendingKey => self.spec_ask(),
            KeyScheme::DirectSeed => self.spec_bdk(),
        }
    }

    /// The scalar of the pair that opens what is encrypted to the scheme's
    /// public key.
    pub fn opening(&self, scheme: KeyScheme) -> (s: Scalar)
        ensures
            s@ == self.spec_opening(scheme),
    {
        match scheme {
            KeyScheme::ExpandedSpendingKey => self.ask,
            KeyScheme::DirectSeed => self.bdk,
        }
    }
}

/// The public key to which balances are encrypted: a point of the
/// prime-order subgroup other than the neutral element.
#[derive(Clone, Copy, Debug)]
pub struct EncryptionKey {
    point: Point,
}

impl View for EncryptionKey {
    type V = Seq<u8>;

    closed spec fn view(&self) -> Seq<u8> {
        self.point@
    }
}

/// What reading 32 bytes as an encryption key fails with, if it fails.
pub open spec fn key_failure(encoding: Seq<u8>) -> Option<Error> {
    if decoding_failure(encoding) is Some {
        decoding_failure(encoding)
    } else if encoding == identity_encoding() {
        Some(Error::SubgroupCheckFailed)
    } else {
        None
    }
}

impl EncryptionKey {
    /// What holds of every key: it is not the neutral element.
    #[verifier::type_invariant]
    pub closed spec fn valid(&self) -> bool {
        self.point@ != identity_encoding()
    }

    /// The key that a point stands for. The neutral element is no key.
    pub fn from_point(point: Point) -> (r: Result<EncryptionKey, Error>)
        ensures
            match r {
                Ok(key) => point@ != identity_encoding() && key@ == point@,
                Err(e) => point@ == identity_encoding() && e == Error::SubgroupCheckFailed,
            },
    {
        if point.is_identity() {
            return Err(Error::SubgroupCheckFailed);
        }
        Ok(EncryptionKey { point })
    }

    /// Reads a key from its 32-byte encoding, checking that the bytes
    /// decode to a point of the prime-order subgroup other than the neutral
    /// element.
    pub fn from_bytes(bytes: [u8; 32]) -> (r: Result<EncryptionKey, Error>)
        ensures
            match r {
                Ok(key) => key_failure(bytes@) is None && key@ == bytes@,
                Err(e) => key_failure(bytes@) == Some(e),
            },
    {
        match Point::from_bytes(bytes) {
            Ok(point) => EncryptionKey::from_point(point),
            Err(e) => Err(e),
        }
    }

    /// The public key of a seed under a scheme: the opening scalar times
    /// the scheme's base point.
    pub fn from_seed(seed: &Seed, scheme: KeyScheme, params: &CurveParams) -> (r: Result<
        EncryptionKey,
        Error,
    >)
        ensures
            match r {
                Ok(key) => derived_address(seed@, scheme) == Ok::<Seq<u8>, Error>(key@),
                Err(e) => derived_address(seed@, scheme) == Err::<Seq<u8>, Error>(e),
            },
    {
        let secret = ProofGenerationKey::derive(seed, scheme).opening(scheme);
        let base = params.generator(scheme.generator());
        assert(seed@.len() == 32);
        EncryptionKey::from_point(base.mul(&secret))
    }

    /// The key as a point.
    pub fn point(&self) -> (p: Point)
        ensures
            p@ == self@,
            p@ != identity_encoding(),
    {
        proof {
            use_type_invariant(self);
        }
        self.point
    }

    /// The key's 32-byte encoding.
    pub fn to_bytes(&self) -> (bytes: [u8; 32])
        ensures
            bytes@ == self@,
            key_failure(bytes@) is None,
    {
        proof {
            use_type_invariant(self);
        }
        self.point.to_bytes()
    }
}

/// Derives the address of a seed: the 32-byte encoding of its public key
/// under the scheme, which decodes to an encryption key again. Fails with
/// `InvalidSeedLength` unless the seed has 32 bytes, and with
/// `SubgroupCheckFailed` where the key would be the neutral element.
pub fn derive_address(seed: &[u8], scheme: KeyScheme, params: &CurveParams) -> (r: Result<
    [u8; 32],
    Error,
>)
    ensures
        match r {
            Ok(address) => {
                &&& derived_address(seed@, scheme) == Ok::<Seq<u8>, Error>(address@)
                &&& key_failure(address@) is None
            },
            Err(e) => derived_address(seed@, scheme) == Err::<Seq<u8>, Error>(e),
        },
{
    let seed = match Seed::from_slice(seed) {
        Ok(s) => s,
        Err(e) => {
            return Err(e);
        },
    };
    match EncryptionKey::from_seed(&seed, scheme, params) {
        Ok(key) => Ok(key.to_bytes()),
        Err(e) => Err(e),
    }
}

} // verus!
