use vstd::prelude::*;
use crate::curve::{
    identity_encoding, is_point, point_difference, point_multiple, point_sum, scalar_sum,
    small_scalar,
};
use crate::elgamal::{
    ciphertext_sum, decrypted, encrypted, is_least_opening, recovered, repeated, unmasked,
    MAX_BALANCE,
};
use crate::error::Error;
use crate::genesis::{entry_outcome, opens_correctly, GENESIS_SCHEME};
use crate::keys::{derived_address, opening_scalar, KeyScheme};
use crate::ledger::ciphertext_encoding;
use crate::params::base_encoding;

verus! {

/// The laws of a commutative group on which scalars act, stated of the
/// curve's operations on the encodings of subgroup points. The arithmetic
/// of the curve is not part of this library, so nothing here proves them:
/// what is proved from them names them as its premise.
pub open spec fn group_laws() -> bool {
    &&& is_point(identity_encoding())
    &&& forall|a: Seq<u8>, b: Seq<u8>|
        is_point(a) && is_point(b) ==> is_point(#[trigger] point_sum(a, b))
    &&& forall|a: Seq<u8>, s: Seq<u8>| is_point(a) ==> is_point(#[trigger] point_multiple(a, s))
    &&& forall|a: Seq<u8>, b: Seq<u8>|
        is_point(a) && is_point(b) ==> #[trigger] point_sum(a, b) == point_sum(b, a)
    &&& forall|a: Seq<u8>, b: Seq<u8>, c: Seq<u8>|
        is_point(a) && is_point(b) && is_point(c) ==> #[trigger] point_sum(point_sum(a, b), c)
            == point_sum(a, point_sum(b, c))
    &&& forall|a: Seq<u8>| is_point(a) ==> #[trigger] point_sum(a, identity_encoding()) == a
    &&& forall|a: Seq<u8>, b: Seq<u8>|
        is_point(a) && is_point(b) ==> #[trigger] point_difference(point_sum(a, b), b) == a
    &&& forall|a: Seq<u8>, b: Seq<u8>, s: Seq<u8>|
        is_point(a) && is_point(b) ==> #[trigger] point_multiple(point_sum(a, b), s) == point_sum(
            point_multiple(a, s),
            point_multiple(b, s),
        )
    &&& forall|a: Seq<u8>, s: Seq<u8>, t: Seq<u8>|
        is_point(a) ==> #[trigger] point_multiple(point_multiple(a, s), t) == point_multiple(
            point_multiple(a, t),
            s,
        )
    &&& forall|a: Seq<u8>, s: Seq<u8>, t: Seq<u8>|
        is_point(a) ==> #[trigger] point_multiple(a, scalar_sum(s, t)) == point_sum(
            point_multiple(a, s),
            point_multiple(a, t),
        )
    &&& forall|a: Seq<u8>, n: u32|
        is_point(a) ==> #[trigger] point_multiple(a, small_scalar(n)) == repeated(a, n as nat)
}

/// Whether the multiples of a base point up to `MAX_BALANCE` are all
/// different: whether the point's order is beyond the supported range.
pub open spec fn distinct_multiples(base: Seq<u8>) -> bool {
    forall|i: nat, j: nat|
        i <= MAX_BALANCE && j <= MAX_BALANCE && #[trigger] repeated(base, i) == #[trigger] repeated(
            base,
            j,
        ) ==> i == j
}

/// A multiple of a subgroup point is a subgroup point.
proof fn lemma_repeated_is_point(base: Seq<u8>, k: nat)
    requires
        group_laws(),
        is_point(base),
    ensures
        is_point(repeated(base, k)),
    decreases k,
{
    if k > 0 {
        lemma_repeated_is_point(base, (k - 1) as nat);
    }
}

/// The sum of two multiples of a point is the multiple by the sum.
proof fn lemma_repeated_sum(base: Seq<u8>, a: nat, b: nat)
    requires
        group_laws(),
        is_point(base),
    ensures
        point_sum(repeated(base, a), repeated(base, b)) == repeated(base, a + b),
    decreases b,
{
    lemma_repeated_is_point(base, a);
    if b == 0 {
        assert(point_sum(repeated(base, a), identity_encoding()) == repeated(base, a));
    } else {
        let prev = (b - 1) as nat;
        lemma_repeated_is_point(base, prev);
        lemma_repeated_sum(base, a, prev);
        assert(repeated(base, b) == point_sum(repeated(base, prev), base));
        assert(point_sum(point_sum(repeated(base, a), repeated(base, prev)), base) == point_sum(
            repeated(base, a),
            point_sum(repeated(base, prev), base),
        ));
        assert(repeated(base, a + b) == point_sum(repeated(base, (a + b - 1) as nat), base));
    }
}

/// Where the multiples of a base point are all different, the multiple by
/// a supported balance stands for that balance.
proof fn lemma_recovers_multiple(base: Seq<u8>, k: nat)
    requires
        distinct_multiples(base),
        k <= MAX_BALANCE,
    ensures
        recovered(base, repeated(base, k)) == Some(k as u32),
{
    let target = repeated(base, k);
    assert(is_least_opening(base, target, k)) by {
        assert forall|j: nat| j < k implies repeated(base, j) != target by {
            if repeated(base, j) == repeated(base, k) {
                assert(j == k);
            }
        }
    }
    let c = choose|j: nat| is_least_opening(base, target, j);
    assert(is_least_opening(base, target, c));
    if repeated(base, c) == repeated(base, k) {
        assert(c == k);
    }
}

/// Decryption inverts encryption. If the curve's operations obey
/// `group_laws` and the multiples of the base point up to `MAX_BALANCE`
/// are all different, then a balance up to `MAX_BALANCE`, encrypted with
/// any randomness to the key `bdk·G`, decrypts with `bdk` to that balance.
pub proof fn decrypt_inverts_encrypt(
    balance: u32,
    randomness: Seq<u8>,
    bdk: Seq<u8>,
    base: Seq<u8>,
)
    requires
        group_laws(),
        is_point(base),
        distinct_multiples(base),
        balance <= MAX_BALANCE,
    ensures
        decrypted(
            encrypted(balance, randomness, point_multiple(base, bdk), base),
            bdk,
            base,
        ) == Some(balance),
{
    let key = point_multiple(base, bdk);
    let amount = point_multiple(base, small_scalar(balance));
    let mask = point_multiple(key, randomness);
    let c = encrypted(balance, randomness, key, base);
    assert(is_point(key));
    assert(is_point(amount));
    assert(is_point(mask));
    assert(c.0 == point_multiple(base, randomness));
    assert(c.1 == point_sum(amount, mask));
    assert(point_multiple(c.0, bdk) == mask) by {
        assert(point_multiple(point_multiple(base, randomness), bdk) == point_multiple(
            point_multiple(base, bdk),
            randomness,
        ));
    }
    assert(unmasked(c, bdk) == amount) by {
        assert(point_difference(point_sum(amount, mask), mask) == amount);
    }
    assert(amount == repeated(base, balance as nat));
    lemma_recovers_multiple(base, balance as nat);
}

/// Two sums of two points each add up to the sum of the first points plus
/// the sum of the second points.
proof fn lemma_sum_of_sums(a: Seq<u8>, m: Seq<u8>, b: Seq<u8>, n: Seq<u8>)
    requires
        group_laws(),
        is_point(a),
        is_point(m),
        is_point(b),
        is_point(n),
    ensures
        point_sum(point_sum(a, m), point_sum(b, n)) == point_sum(
            point_sum(a, b),
            point_sum(m, n),
        ),
{
    let bn = point_sum(b, n);
    let mn = point_sum(m, n);
    assert(is_point(bn) && is_point(mn));
    assert(point_sum(point_sum(a, m), bn) == point_sum(a, point_sum(m, bn)));
    assert(point_sum(point_sum(m, b), n) == point_sum(m, point_sum(b, n)));
    assert(point_sum(m, b) == point_sum(b, m));
    assert(point_sum(point_sum(b, m), n) == point_sum(b, point_sum(m, n)));
    assert(point_sum(m, bn) == point_sum(b, mn));
    assert(point_sum(point_sum(a, b), mn) == point_sum(a, point_sum(b, mn)));
}

/// Encryption is additively homomorphic. If the curve's operations obey
/// `group_laws`, then the component-wise sum of the ciphertexts of two
/// balances for one key is the ciphertext of the sum of the balances for
/// that key, made with the sum of the two randomness scalars, where the sum
/// of the balances is a 32-bit number.
pub proof fn sum_of_ciphertexts_is_ciphertext_of_sum(
    a: u32,
    b: u32,
    r1: Seq<u8>,
    r2: Seq<u8>,
    recipient: Seq<u8>,
    base: Seq<u8>,
)
    requires
        group_laws(),
        is_point(base),
        is_point(recipient),
        a + b <= u32::MAX,
    ensures
        ciphertext_sum(encrypted(a, r1, recipient, base), encrypted(b, r2, recipient, base))
            == encrypted((a + b) as u32, scalar_sum(r1, r2), recipient, base),
{
    let total = (a + b) as u32;
    let amount_a = point_multiple(base, small_scalar(a));
    let amount_b = point_multiple(base, small_scalar(b));
    let mask_a = point_multiple(recipient, r1);
    let mask_b = point_multiple(recipient, r2);
    assert(is_point(amount_a) && is_point(amount_b) && is_point(mask_a) && is_point(mask_b));
    let sum = ciphertext_sum(
        encrypted(a, r1, recipient, base),
        encrypted(b, r2, recipient, base),
    );
    let joint = encrypted(total, scalar_sum(r1, r2), recipient, base);
    assert(sum.0 == joint.0) by {
        assert(point_multiple(base, scalar_sum(r1, r2)) == point_sum(
            point_multiple(base, r1),
            point_multiple(base, r2),
        ));
    }
    assert(sum.1 == joint.1) by {
        lemma_sum_of_sums(amount_a, mask_a, amount_b, mask_b);
        assert(amount_a == repeated(base, a as nat));
        assert(amount_b == repeated(base, b as nat));
        lemma_repeated_sum(base, a as nat, b as nat);
        assert(point_multiple(base, small_scalar(total)) == repeated(base, total as nat));
        assert(point_multiple(recipient, scalar_sum(r1, r2)) == point_sum(mask_a, mask_b));
    }
}

/// The sum of two ciphertexts decrypts to the sum of their balances. If
/// the curve's operations obey `group_laws` and the multiples of the base
/// point up to `MAX_BALANCE` are all different, then the component-wise
/// sum of the ciphertexts of two balances, made with any randomness for
/// the key `bdk·G`, decrypts with `bdk` to the sum of the balances, where
/// that sum is at most `MAX_BALANCE`.
pub proof fn sum_decrypts_to_sum(
    a: u32,
    b: u32,
    r1: Seq<u8>,
    r2: Seq<u8>,
    bdk: Seq<u8>,
    base: Seq<u8>,
)
    requires
        group_laws(),
        is_point(base),
        distinct_multiples(base),
        a + b <= MAX_BALANCE,
    ensures
        decrypted(
            ciphertext_sum(
                encrypted(a, r1, point_multiple(base, bdk), base),
                encrypted(b, r2, point_multiple(base, bdk), base),
            ),
            bdk,
            base,
        ) == Some((a + b) as u32),
{
    let key = point_multiple(base, bdk);
    assert(is_point(key));
    sum_of_ciphertexts_is_ciphertext_of_sum(a, b, r1, r2, key, base);
    decrypt_inverts_encrypt((a + b) as u32, scalar_sum(r1, r2), bdk, base);
}

/// The genesis self-check passes for every supported balance. If the
/// curve's operations obey `group_laws`, and the base point of the genesis
/// scheme is a subgroup point whose multiples up to `MAX_BALANCE` are all
/// different, then the genesis ciphertext of a balance up to `MAX_BALANCE`
/// opens to that balance with the account's own scalar: building the entry
/// fails only where the account's key cannot be derived.
pub proof fn genesis_balance_opens(seed: Seq<u8>, balance: u32)
    requires
        group_laws(),
        is_point(base_encoding(GENESIS_SCHEME.base())),
        distinct_multiples(base_encoding(GENESIS_SCHEME.base())),
        balance <= MAX_BALANCE,
    ensures
        opens_correctly(seed, balance),
        entry_outcome(seed, balance) is Err ==> derived_address(seed, GENESIS_SCHEME) is Err,
{
    decrypt_inverts_encrypt(
        balance,
        small_scalar(1),
        opening_scalar(seed, GENESIS_SCHEME),
        base_encoding(GENESIS_SCHEME.base()),
    );
}

/// Encryption with fixed randomness is reproducible: two ciphertexts of
/// one balance for one key, both made with the scalar one as randomness,
/// have the same bytes.
pub proof fn fixed_randomness_is_reproducible(
    first: (Seq<u8>, Seq<u8>),
    second: (Seq<u8>, Seq<u8>),
    balance: u32,
    recipient: Seq<u8>,
    base: Seq<u8>,
)
    requires
        first == encrypted(balance, small_scalar(1), recipient, base),
        second == encrypted(balance, small_scalar(1), recipient, base),
    ensures
        ciphertext_encoding(first) == ciphertext_encoding(second),
{
}

/// Derivation is a function of the seed: every derivation from the same
/// seed under the same scheme gives the same address, or fails in the same
/// way.
pub proof fn derivation_is_deterministic(
    first: Result<Seq<u8>, Error>,
    second: Result<Seq<u8>, Error>,
    seed: Seq<u8>,
    scheme: KeyScheme,
)
    requires
        first == derived_address(seed, scheme),
        second == derived_address(seed, scheme),
    ensures
        first == second,
{
}

} // verus!
