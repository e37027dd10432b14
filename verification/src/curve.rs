use vstd::prelude::*;
use crate::error::Error;

verus! {

/// Whether 32 bytes are the canonical encoding of a point on the Jubjub
/// curve: whether `jubjub::AffinePoint::from_bytes` accepts them.
pub uninterp spec fn on_curve(encoding: Seq<u8>) -> bool;

/// Whether the point with this encoding lies in the prime-order subgroup:
/// what `jubjub::AffinePoint::is_torsion_free` answers for it.
pub uninterp spec fn torsion_free(encoding: Seq<u8>) -> bool;

/// The encoding of the sum of the two points with these encodings, as the
/// `+` of `jubjub::ExtendedPoint` computes it.
pub uninterp spec fn point_sum(a: Seq<u8>, b: Seq<u8>) -> Seq<u8>;

/// The encoding of the first point minus the second, as the `-` of
/// `jubjub::ExtendedPoint` computes it.
pub uninterp spec fn point_difference(a: Seq<u8>, b: Seq<u8>) -> Seq<u8>;

/// The encoding of the point multiplied by the scalar that the 32 bytes
/// spell in little-endian order, as the `*` of `jubjub::ExtendedPoint` and
/// `jubjub::Fr` computes it.
pub uninterp spec fn point_multiple(point: Seq<u8>, scalar: Seq<u8>) -> Seq<u8>;

/// The number that a byte string spells in little-endian order.
pub open spec fn le_value(bytes: Seq<u8>) -> nat
    decreases bytes.len(),
{
    if bytes.len() == 0 {
        0
    } else {
        bytes[0] as nat + 256 * le_value(bytes.drop_first())
    }
}

/// The order of the prime-order subgroup of Jubjub, which is also the
/// modulus of its scalar field.
pub open spec fn group_order() -> nat {
    0x0e7db4ea6533afa906673b0101343b00a6682093ccc81082d0970e5ed6f72cb7nat
}

/// The encoding of the neutral element `(0, 1)`: a one followed by zeros.
pub open spec fn identity_encoding() -> Seq<u8> {
    Seq::new(32, |i: int| if i == 0 { 1u8 } else { 0u8 })
}

/// The `len` little-endian bytes of a number; what does not fit is dropped.
pub open spec fn le_bytes(n: nat, len: nat) -> Seq<u8>
    decreases len,
{
    if len == 0 {
        Seq::empty()
    } else {
        seq![(n % 256) as u8] + le_bytes(n / 256, (len - 1) as nat)
    }
}

/// The encoding of a 32-bit number as a scalar.
pub open spec fn small_scalar(n: u32) -> Seq<u8> {
    le_bytes(n as nat, 32)
}

/// The encoding of the scalar that 64 uniformly random bytes are mapped to:
/// the number they spell, reduced modulo the group order.
pub open spec fn uniform_scalar(wide: Seq<u8>) -> Seq<u8> {
    le_bytes(le_value(wide) % group_order(), 32)
}

/// The encoding of the sum of two scalars: the sum of the numbers that
/// they spell, reduced modulo the group order.
pub open spec fn scalar_sum(a: Seq<u8>, b: Seq<u8>) -> Seq<u8> {
    le_bytes((le_value(a) + le_value(b)) % group_order(), 32)
}

/// What decoding 32 bytes as a subgroup point fails with, if it fails.
pub open spec fn decoding_failure(encoding: Seq<u8>) -> Option<Error> {
    if !on_curve(encoding) {
        Some(Error::PointNotOnCurve)
    } else if !torsion_free(encoding) {
        Some(Error::SubgroupCheckFailed)
    } else {
        None
    }
}

/// Whether 32 bytes encode a point of the prime-order subgroup.
pub open spec fn is_point(encoding: Seq<u8>) -> bool {
    encoding.len() == 32 && on_curve(encoding) && torsion_free(encoding)
}

/// Calls `jubjub::AffinePoint::from_bytes` and reports whether it accepted
/// the bytes. Trusted: the answer is what `on_curve` names.
#[verifier::external_body]
fn decodes(encoding: &[u8; 32]) -> (ok: bool)
    ensures
        ok == on_curve(encoding@),
{
    bool::from(jubjub::AffinePoint::from_bytes(*encoding).is_some())
}

/// Calls `jubjub::AffinePoint::is_torsion_free` on the decoded point.
/// Trusted: the answer is what `torsion_free` names.
#[verifier::external_body]
fn in_subgroup(encoding: &[u8; 32]) -> (ok: bool)
    requires
        on_curve(encoding@),
    ensures
        ok == torsion_free(encoding@),
{
    bool::from(jubjub::AffinePoint::from_bytes(*encoding).unwrap().is_torsion_free())
}

/// Calls `jubjub::AffinePoint::identity` and encodes it. Trusted: the
/// neutral element is a subgroup point, encoded as a one followed by zeros.
#[verifier::external_body]
fn encoded_identity() -> (r: [u8; 32])
    ensures
        r@ == identity_encoding(),
        is_point(r@),
{
    jubjub::AffinePoint::identity().to_bytes()
}

/// Adds two points with the `+` of `jubjub::ExtendedPoint`. Trusted: the
/// result is the encoding that `point_sum` names, and the sum of two
/// subgroup points is a subgroup point.
#[verifier::external_body]
fn add_encoded(a: &[u8; 32], b: &[u8; 32]) -> (r: [u8; 32])
    requires
        is_point(a@),
        is_point(b@),
    ensures
        r@ == point_sum(a@, b@),
        is_point(r@),
{
    let p = jubjub::ExtendedPoint::from(jubjub::AffinePoint::from_bytes(*a).unwrap());
    let q = jubjub::ExtendedPoint::from(jubjub::AffinePoint::from_bytes(*b).unwrap());
    jubjub::AffinePoint::from(p + q).to_bytes()
}

/// Subtracts two points with the `-` of `jubjub::ExtendedPoint`. Trusted:
/// the result is the encoding that `point_difference` names, and the
/// difference of two subgroup points is a subgroup point.
#[verifier::external_body]
fn sub_encoded(a: &[u8; 32], b: &[u8; 32]) -> (r: [u8; 32])
    requires
        is_point(a@),
        is_point(b@),
    ensures
        r@ == point_difference(a@, b@),
        is_point(r@),
{
    let p = jubjub::ExtendedPoint::from(jubjub::AffinePoint::from_bytes(*a).unwrap());
    let q = jubjub::ExtendedPoint::from(jubjub::AffinePoint::from_bytes(*b).unwrap());
    jubjub::AffinePoint::from(p - q).to_bytes()
}

/// Multiplies a point by a scalar with the `*` of `jubjub::ExtendedPoint`
/// and `jubjub::Fr`; the scalar's bytes are read by
/// `jubjub::Fr::from_bytes_wide`, which reduces them. Trusted: the result is
/// the encoding that `point_multiple` names, and a multiple of a subgroup
/// point is a subgroup point.
#[verifier::external_body]
fn mul_encoded(point: &[u8; 32], scalar: &[u8; 32]) -> (r: [u8; 32])
    requires
        is_point(point@),
    ensures
        r@ == point_multiple(point@, scalar@),
        is_point(r@),
{
    let mut wide = [0u8; 64];
    wide[..32].copy_from_slice(scalar);
    let p = jubjub::ExtendedPoint::from(jubjub::AffinePoint::from_bytes(*point).unwrap());
    jubjub::AffinePoint::from(p * jubjub::Fr::from_bytes_wide(&wide)).to_bytes()
}

/// Reduces 64 bytes into the scalar field with
/// `jubjub::Fr::from_bytes_wide` and encodes the result with
/// `jubjub::Fr::to_bytes`. Trusted: the result is the little-endian encoding
/// of the input's little-endian value modulo the group order.
#[verifier::external_body]
fn reduce_wide(wide: &[u8; 64]) -> (r: [u8; 32])
    ensures
        r@ == uniform_scalar(wide@),
{
    jubjub::Fr::from_bytes_wide(wide).to_bytes()
}

/// Adds two scalars with the `+` of `jubjub::Fr`; both are read by
/// `jubjub::Fr::from_bytes_wide`, which reduces them, and the sum is
/// encoded with `jubjub::Fr::to_bytes`. Trusted: the result is the
/// little-endian encoding of the sum of the two values modulo the group
/// order.
#[verifier::external_body]
fn add_scalars(a: &[u8; 32], b: &[u8; 32]) -> (r: [u8; 32])
    ensures
        r@ == scalar_sum(a@, b@),
{
    let mut wide = [0u8; 64];
    wide[..32].copy_from_slice(a);
    let x = jubjub::Fr::from_bytes_wide(&wide);
    wide[..32].copy_from_slice(b);
    let y = jubjub::Fr::from_bytes_wide(&wide);
    (x + y).to_bytes()
}

/// A number below 2^32 has four little-endian bytes and zeros after them.
proof fn lemma_small_scalar(n: u32)
    ensures
        small_scalar(n).len() == 32,
        small_scalar(n)[0] == (n % 256) as u8,
        small_scalar(n)[1] == (n / 256 % 256) as u8,
        small_scalar(n)[2] == (n / 65536 % 256) as u8,
        small_scalar(n)[3] == (n / 16777216) as u8,
        forall|i: int| 4 <= i < 32 ==> small_scalar(n)[i] == 0u8,
{
    let n0 = n as nat;
    lemma_le_bytes_index(n0, 32, 0);
    lemma_le_bytes_index(n0, 32, 1);
    lemma_le_bytes_index(n0, 32, 2);
    lemma_le_bytes_index(n0, 32, 3);
    assert(shifted(n0, 0) == n0);
    assert(shifted(n0, 1) == n0 / 256) by {
        reveal_with_fuel(shifted, 2);
    }
    assert(shifted(n0, 2) == n0 / 256 / 256) by {
        reveal_with_fuel(shifted, 3);
    }
    assert(shifted(n0, 3) == n0 / 256 / 256 / 256) by {
        reveal_with_fuel(shifted, 4);
    }
    assert(shifted(n0, 4) == 0) by {
        reveal_with_fuel(shifted, 5);
    }
    assert forall|i: int| 4 <= i < 32 implies small_scalar(n)[i] == 0u8 by {
        lemma_le_bytes_index(n0, 32, i as nat);
        lemma_shifted_zero(n0, 4, i as nat);
    }
}

/// A number with its `k` lowest bytes dropped.
spec fn shifted(n: nat, k: nat) -> nat
    decreases k,
{
    if k == 0 {
        n
    } else {
        shifted(n / 256, (k - 1) as nat)
    }
}

proof fn lemma_le_bytes_index(n: nat, len: nat, i: nat)
    requires
        i < len,
    ensures
        le_bytes(n, len).len() == len,
        le_bytes(n, len)[i as int] == (shifted(n, i) % 256) as u8,
    decreases len,
{
    lemma_le_bytes_len(n, len);
    if i > 0 {
        lemma_le_bytes_index(n / 256, (len - 1) as nat, (i - 1) as nat);
    } else {
        lemma_le_bytes_len(n / 256, (len - 1) as nat);
    }
}

proof fn lemma_le_bytes_len(n: nat, len: nat)
    ensures
        le_bytes(n, len).len() == len,
    decreases len,
{
    if len > 0 {
        lemma_le_bytes_len(n / 256, (len - 1) as nat);
    }
}

proof fn lemma_shifted_zero(n: nat, j: nat, k: nat)
    requires
        shifted(n, j) == 0,
        j <= k,
    ensures
        shifted(n, k) == 0,
    decreases j,
{
    if j == 0 {
        lemma_shifted_of_zero(k);
    } else {
        lemma_shifted_zero(n / 256, (j - 1) as nat, (k - 1) as nat);
    }
}

proof fn lemma_shifted_of_zero(k: nat)
    ensures
        shifted(0, k) == 0,
    decreases k,
{
    if k > 0 {
        lemma_shifted_of_zero((k - 1) as nat);
    }
}

/// Whether two encodings are the same bytes.
fn same_bytes(a: &[u8; 32], b: &[u8; 32]) -> (same: bool)
    ensures
        same == (a@ == b@),
{
    let mut i: usize = 0;
    while i < 32
        invariant
            i <= 32,
            forall|j: int| 0 <= j < i ==> a@[j] == b@[j],
        decreases 32 - i,
    {
        if a[i] != b[i] {
            return false;
        }
        i += 1;
    }
    assert(a@ =~= b@);
    true
}

/// An element of Jubjub's scalar field, kept as 32 little-endian bytes.
/// Bytes that spell a number beyond the group order stand for its
/// remainder.
#[derive(Clone, Copy, Debug)]
pub struct Scalar {
    bytes: [u8; 32],
}

impl View for Scalar {
    type V = Seq<u8>;

    closed spec fn view(&self) -> Seq<u8> {
        self.bytes@
    }
}

impl Scalar {
    /// The scalar that 32 little-endian bytes spell.
    pub fn from_bytes(bytes: [u8; 32]) -> (s: Scalar)
        ensures
            s@ == bytes@,
    {
        Scalar { bytes }
    }

    /// The scalar's 32 little-endian bytes.
    pub fn to_bytes(&self) -> (bytes: [u8; 32])
        ensures
            bytes@ == self@,
    {
        self.bytes
    }

    /// The multiplicative identity of the scalar field.
    pub fn one() -> (s: Scalar)
        ensures
            s@ == small_scalar(1),
    {
        Scalar::from_u32(1)
    }

    /// The scalar that stands for a 32-bit number.
    pub fn from_u32(n: u32) -> (s: Scalar)
        ensures
            s@ == small_scalar(n),
    {
        let mut bytes = [0u8; 32];
        bytes[0] = (n % 256) as u8;
        bytes[1] = (n / 256 % 256) as u8;
        bytes[2] = (n / 65536 % 256) as u8;
        bytes[3] = (n / 16777216) as u8;
        proof {
            lemma_small_scalar(n);
        }
        assert(bytes@ =~= small_scalar(n));
        Scalar { bytes }
    }

    /// The sum of two scalars in the scalar field.
    pub fn add(&self, other: &Scalar) -> (s: Scalar)
        ensures
            s@ == scalar_sum(self@, other@),
    {
        Scalar { bytes: add_scalars(&self.bytes, &other.bytes) }
    }

    /// Maps 64 uniformly random bytes to a scalar by reducing the number
    /// they spell modulo the group order.
    pub fn from_uniform_bytes(wide: &[u8; 64]) -> (s: Scalar)
        ensures
            s@ == uniform_scalar(wide@),
    {
        Scalar { bytes: reduce_wide(wide) }
    }
}

/// A point of Jubjub's prime-order subgroup, kept as its canonical
/// 32-byte encoding.
#[derive(Clone, Copy, Debug)]
pub struct Point {
    bytes: [u8; 32],
}

impl View for Point {
    type V = Seq<u8>;

    closed spec fn view(&self) -> Seq<u8> {
        self.bytes@
    }
}

impl Point {
    /// What holds of every `Point`: its bytes encode a subgroup point.
    #[verifier::type_invariant]
    pub closed spec fn valid(&self) -> bool {
        is_point(self.bytes@)
    }

    /// Spells out what `valid` says.
    pub proof fn lemma_valid(&self)
        requires
            self.valid(),
        ensures
            is_point(self@),
    {
    }

    /// Decodes a point, checking that the bytes are a canonical encoding of
    /// a curve point and that the point lies in the prime-order subgroup.
    pub fn from_bytes(bytes: [u8; 32]) -> (r: Result<Point, Error>)
        ensures
            match r {
                Ok(p) => decoding_failure(bytes@) is None && p@ == bytes@,
                Err(e) => decoding_failure(bytes@) == Some(e),
            },
    {
        if !decodes(&bytes) {
            return Err(Error::PointNotOnCurve);
        }
        if !in_subgroup(&bytes) {
            return Err(Error::SubgroupCheckFailed);
        }
        Ok(Point { bytes })
    }

    /// The point's canonical encoding.
    pub fn to_bytes(&self) -> (bytes: [u8; 32])
        ensures
            bytes@ == self@,
            is_point(bytes@),
    {
        proof {
            use_type_invariant(self);
        }
        self.bytes
    }

    /// The neutral element.
    pub fn identity() -> (p: Point)
        ensures
            p@ == identity_encoding(),
    {
        Point { bytes: encoded_identity() }
    }

    /// Whether this is the neutral element.
    pub fn is_identity(&self) -> (r: bool)
        ensures
            r == (self@ == identity_encoding()),
    {
        let id = encoded_identity();
        same_bytes(&self.bytes, &id)
    }

    /// Whether two points are the same point.
    pub fn equals(&self, other: &Point) -> (r: bool)
        ensures
            r == (self@ == other@),
    {
        same_bytes(&self.bytes, &other.bytes)
    }

    /// The sum of two points.
    pub fn add(&self, other: &Point) -> (r: Point)
        ensures
            r@ == point_sum(self@, other@),
    {
        proof {
            use_type_invariant(self);
            use_type_invariant(other);
        }
        Point { bytes: add_encoded(&self.bytes, &other.bytes) }
    }

    /// This point minus another.
    pub fn sub(&self, other: &Point) -> (r: Point)
        ensures
            r@ == point_difference(self@, other@),
    {
        proof {
            use_type_invariant(self);
            use_type_invariant(other);
        }
        Point { bytes: sub_encoded(&self.bytes, &other.bytes) }
    }

    /// This point multiplied by a scalar.
    pub fn mul(&self, scalar: &Scalar) -> (r: Point)
        ensures
            r@ == point_multiple(self@, scalar@),
    {
        proof {
            use_type_invariant(self);
        }
        Point { bytes: mul_encoded(&self.bytes, &scalar.bytes) }
    }
}

} // verus!
