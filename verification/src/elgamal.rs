use vstd::prelude::*;
use crate::curve::{
    identity_encoding, point_difference, point_multiple, point_sum, small_scalar, uniform_scalar,
    Point, Scalar,
};
use crate::error::Error;
use crate::params::{base_encoding, CurveParams, Generator};

verus! {

/// The largest balance that decryption recovers. A ciphertext of a larger
/// balance is well formed, but opens to nothing.
///
/// The ceiling is low because of what one step of the search costs.
/// Decryption walks through the multiples of the base point, and a
/// decryption that fails walks through all of them. Points are kept as
/// their 32-byte encodings, so every step decodes two points and encodes
/// one, which takes square roots and inversions in the base field:
/// thousands of field multiplications. At 4095 a failing decryption ends
/// within seconds even in an unoptimised build. A ceiling near the width
/// of the balance type would take a million times as long.
pub const MAX_BALANCE: u32 = 4095;

/// The encoding of `k` times a point, written as a sum of `k` copies.
pub open spec fn repeated(point: Seq<u8>, k: nat) -> Seq<u8>
    decreases k,
{
    if k == 0 {
        identity_encoding()
    } else {
        point_sum(repeated(point, (k - 1) as nat), point)
    }
}

/// Whether `k` is the least supported balance whose multiple of the base
/// point is the target.
pub open spec fn is_least_opening(base: Seq<u8>, target: Seq<u8>, k: nat) -> bool {
    &&& k <= MAX_BALANCE
    &&& repeated(base, k) == target
    &&& forall|j: nat| j < k ==> repeated(base, j) != target
}

/// The balance that a point stands for: the least `k` up to `MAX_BALANCE`
/// with `k` times the base point equal to the target, if there is one.
pub open spec fn recovered(base: Seq<u8>, target: Seq<u8>) -> Option<u32> {
    if exists|k: nat| is_least_opening(base, target, k) {
        Some((choose|k: nat| is_least_opening(base, target, k)) as u32)
    } else {
        None
    }
}

/// The two points of the ciphertext of a balance:
/// `(r·G, balance·G + r·PK)`.
pub open spec fn encrypted(
    balance: u32,
    randomness: Seq<u8>,
    recipient: Seq<u8>,
    base: Seq<u8>,
) -> (Seq<u8>, Seq<u8>) {
    (
        point_multiple(base, randomness),
        point_sum(
            point_multiple(base, small_scalar(balance)),
            point_multiple(recipient, randomness),
        ),
    )
}

/// The point that a ciphertext hides, seen with a decryption scalar:
/// `c2 - bdk·c1`.
pub open spec fn unmasked(ciphertext: (Seq<u8>, Seq<u8>), bdk: Seq<u8>) -> Seq<u8> {
    point_difference(ciphertext.1, point_multiple(ciphertext.0, bdk))
}

/// What a ciphertext decrypts to with a decryption scalar.
pub open spec fn decrypted(ciphertext: (Seq<u8>, Seq<u8>), bdk: Seq<u8>, base: Seq<u8>) -> Option<
    u32,
> {
    recovered(base, unmasked(ciphertext, bdk))
}

/// The component-wise sum of two ciphertexts.
pub open spec fn ciphertext_sum(a: (Seq<u8>, Seq<u8>), b: (Seq<u8>, Seq<u8>)) -> (
    Seq<u8>,
    Seq<u8>,
) {
    (point_sum(a.0, b.0), point_sum(a.1, b.1))
}

/// Looks for the balance that a point stands for by walking through the
/// multiples of the base point, from zero up to `MAX_BALANCE`.
pub fn recover_balance(target: &Point, generator: Generator, params: &CurveParams) -> (r: Option<
    u32,
>)
    ensures
        r == recovered(base_encoding(generator), target@),
        match r {
            Some(k) => is_least_opening(base_encoding(generator), target@, k as nat),
            None => forall|k: nat|
                k <= MAX_BALANCE ==> repeated(base_encoding(generator), k) != target@,
        },
{
    let base = params.generator(generator);
    let ghost g = base_encoding(generator);
    let ghost t = target@;
    let mut multiple = Point::identity();
    let mut k: u32 = 0;
    loop
        invariant
            k <= MAX_BALANCE,
            g == base_encoding(generator),
            base@ == g,
            t == target@,
            multiple@ == repeated(g, k as nat),
            forall|j: nat| j < k ==> repeated(g, j) != t,
        decreases MAX_BALANCE - k,
    {
        if multiple.equals(target) {
            proof {
                lemma_recovered_is_least(g, t, k as nat);
            }
            return Some(k);
        }
        if k == MAX_BALANCE {
            assert(forall|j: nat| j <= MAX_BALANCE ==> repeated(g, j) != t);
            return None;
        }
        multiple = multiple.add(&base);
        k += 1;
    }
}

/// The least opening is the one that `recovered` names.
proof fn lemma_recovered_is_least(base: Seq<u8>, target: Seq<u8>, k: nat)
    requires
        is_least_opening(base, target, k),
    ensures
        recovered(base, target) == Some(k as u32),
{
    let c = choose|j: nat| is_least_opening(base, target, j);
    assert(is_least_opening(base, target, c));
    assert(!(c < k));
    assert(!(k < c));
}

/// Where the randomness of an encryption comes from.
#[derive(Clone, Copy, Debug, PartialEq, Eq, Structural)]
pub enum RandomnessPolicy {
    /// Fresh secret randomness for every encryption. Every encryption that
    /// a user asks for is made so.
    Secure,
    /// The scalar one, always. Equal balances then have equal ciphertexts
    /// under one key, so this is for reproducible genesis entries and for
    /// tests only.
    FixedForTesting,
}

/// The randomness that a policy gives: the scalar one where it is fixed,
/// otherwise the scalar that the entropy is mapped to; without entropy
/// there is none.
pub open spec fn randomness_of(policy: RandomnessPolicy, entropy: Option<Seq<u8>>) -> Result<
    Seq<u8>,
    Error,
> {
    match policy {
        RandomnessPolicy::FixedForTesting => Ok(small_scalar(1)),
        RandomnessPolicy::Secure => match entropy {
            Some(wide) => Ok(uniform_scalar(wide)),
            None => Err(Error::RandomSourceUnavailable),
        },
    }
}

/// Chooses the randomness of one encryption. Under the secure policy the
/// caller hands in 64 bytes that it has just drawn from a secure random
/// source, or nothing where the source failed: the failure is reported and
/// never replaced by fixed randomness.
pub fn encryption_randomness(policy: RandomnessPolicy, entropy: Option<[u8; 64]>) -> (r: Result<
    Scalar,
    Error,
>)
    ensures
        match r {
            Ok(s) => randomness_of(policy, entropy_view(entropy)) == Ok::<Seq<u8>, Error>(s@),
            Err(e) => randomness_of(policy, entropy_view(entropy)) == Err::<Seq<u8>, Error>(e),
        },
{
    match policy {
        RandomnessPolicy::FixedForTesting => Ok(Scalar::one()),
        RandomnessPolicy::Secure => match entropy {
            Some(wide) => Ok(Scalar::from_uniform_bytes(&wide)),
            None => Err(Error::RandomSourceUnavailable),
        },
    }
}

/// The bytes of the entropy, if there is any.
pub open spec fn entropy_view(entropy: Option<[u8; 64]>) -> Option<Seq<u8>> {
    match entropy {
        Some(wide) => Some(wide@),
        None => None,
    }
}

/// An additively homomorphic ElGamal ciphertext of a balance: two points
/// of the prime-order subgroup.
#[derive(Clone, Copy, Debug)]
pub struct Ciphertext {
    left: Point,
    right: Point,
}

impl View for Ciphertext {
    type V = (Seq<u8>, Seq<u8>);

    closed spec fn view(&self) -> (Seq<u8>, Seq<u8>) {
        (self.left@, self.right@)
    }
}

impl Ciphertext {
    /// Encrypts a balance to a recipient's key with the given randomness:
    /// `(r·G, balance·G + r·PK)`.
    pub fn encrypt(
        balance: u32,
        randomness: &Scalar,
        recipient: &Point,
        generator: Generator,
        params: &CurveParams,
    ) -> (c: Ciphertext)
        ensures
            c@ == encrypted(balance, randomness@, recipient@, base_encoding(generator)),
    {
        let base = params.generator(generator);
        let left = base.mul(randomness);
        let amount = base.mul(&Scalar::from_u32(balance));
        let mask = recipient.mul(randomness);
        Ciphertext { left, right: amount.add(&mask) }
    }

    /// Decrypts with a balance-decryption scalar: unmasks `c2 - bdk·c1` and
    /// looks for the balance that it stands for. `None` where there is no
    /// such balance up to `MAX_BALANCE`.
    pub fn decrypt(&self, bdk: &Scalar, generator: Generator, params: &CurveParams) -> (r: Option<
        u32,
    >)
        ensures
            r == decrypted(self@, bdk@, base_encoding(generator)),
    {
        let mask = self.left.mul(bdk);
        let target = self.right.sub(&mask);
        recover_balance(&target, generator, params)
    }

    /// Decrypts as `decrypt` does, and reports a ciphertext that opens to
    /// no supported balance as `DecryptionFailed`.
    pub fn try_decrypt(&self, bdk: &Scalar, generator: Generator, params: &CurveParams) -> (r:
        Result<u32, Error>)
        ensures
            match decrypted(self@, bdk@, base_encoding(generator)) {
                Some(balance) => r == Ok::<u32, Error>(balance),
                None => r == Err::<u32, Error>(Error::DecryptionFailed),
            },
    {
        match self.decrypt(bdk, generator, params) {
            Some(balance) => Ok(balance),
            None => Err(Error::DecryptionFailed),
        }
    }

    /// The component-wise sum of two ciphertexts.
    pub fn add(&self, other: &Ciphertext) -> (c: Ciphertext)
        ensures
            c@ == ciphertext_sum(self@, other@),
    {
        Ciphertext { left: self.left.add(&other.left), right: self.right.add(&other.right) }
    }

    /// The first point, `r·G`.
    pub fn left(&self) -> (p: Point)
        ensures
            p@ == self@.0,
    {
        self.left
    }

    /// The second point, `balance·G + r·PK`.
    pub fn right(&self) -> (p: Point)
        ensures
            p@ == self@.1,
    {
        self.right
    }

    /// A ciphertext made of two given points.
    pub fn from_points(left: Point, right: Point) -> (c: Ciphertext)
        ensures
            c@ == (left@, right@),
    {
        Ciphertext { left, right }
    }
}

} // verus!
