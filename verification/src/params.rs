use vstd::prelude::*;
use crate::curve::{decoding_failure, identity_encoding, is_point, Point};
use crate::error::Error;

verus! {

/// The roles for which the protocol fixes a base point. Each role has a
/// base point of its own, so that a value made for one role cannot pass
/// for a value of another.
#[derive(Clone, Copy, Debug, PartialEq, Eq, Structural)]
pub enum Generator {
    /// The base point under which encryption keys are derived from the
    /// balance-decryption scalar, and under which balances addressed to
    /// such keys are encrypted.
    Diversifier,
    /// The base point under which viewing keys are derived from the
    /// spend-authorizing scalar.
    SpendingKey,
}

/// The encoding of the base point of the diversifier role.
pub const DIVERSIFIER_BASE: [u8; 32] = [
    167, 24, 130, 35, 158, 31, 154, 102, 37, 26, 54, 145, 241, 145, 115, 16,
    50, 126, 91, 248, 254, 47, 253, 120, 223, 196, 117, 69, 35, 52, 213, 158,
];

/// The encoding of the base point of the spending-key role.
pub const SPENDING_KEY_BASE: [u8; 32] = [
    244, 207, 120, 19, 91, 97, 65, 57, 175, 92, 201, 178, 12, 25, 86, 187,
    0, 185, 182, 68, 150, 246, 11, 88, 201, 230, 158, 240, 100, 93, 129, 98,
];

/// The encoding of a role's base point.
pub open spec fn base_encoding(role: Generator) -> Seq<u8> {
    match role {
        Generator::Diversifier => DIVERSIFIER_BASE@,
        Generator::SpendingKey => SPENDING_KEY_BASE@,
    }
}

/// The curve's fixed base points, decoded and checked once and then shared
/// by reference by every derivation, encryption and decryption.
#[derive(Clone, Copy, Debug)]
pub struct CurveParams {
    diversifier: Point,
    spending_key: Point,
}

impl CurveParams {
    #[verifier::type_invariant]
    spec fn valid(&self) -> bool {
        &&& self.diversifier@ == DIVERSIFIER_BASE@
        &&& self.spending_key@ == SPENDING_KEY_BASE@
    }

    /// Decodes the base points. Fails with what the first base point that
    /// does not decode to a subgroup point fails with.
    pub fn new() -> (r: Result<CurveParams, Error>)
        ensures
            match r {
                Ok(_) => forall|role: Generator| is_point(#[trigger] base_encoding(role)),
                Err(e) => decoding_failure(DIVERSIFIER_BASE@) == Some(e) || (decoding_failure(
                    DIVERSIFIER_BASE@,
                ) is None && decoding_failure(SPENDING_KEY_BASE@) == Some(e)),
            },
    {
        let diversifier = match Point::from_bytes(DIVERSIFIER_BASE) {
            Ok(p) => p,
            Err(e) => {
                return Err(e);
            },
        };
        let spending_key = match Point::from_bytes(SPENDING_KEY_BASE) {
            Ok(p) => p,
            Err(e) => {
                return Err(e);
            },
        };
        Ok(CurveParams { diversifier, spending_key })
    }

    /// The base point of a role.
    pub fn generator(&self, role: Generator) -> (p: Point)
        ensures
            p@ == base_encoding(role),
            is_point(base_encoding(role)),
            base_encoding(role) != identity_encoding(),
    {
        proof {
            use_type_invariant(self);
            lemma_bases_not_identity();
        }
        let p = match role {
            Generator::Diversifier => self.diversifier,
            Generator::SpendingKey => self.spending_key,
        };
        proof {
            use_type_invariant(&p);
            p.lemma_valid();
        }
        p
    }
}

/// No base point is the neutral element.
pub proof fn lemma_bases_not_identity()
    ensures
        forall|role: Generator| #[trigger] base_encoding(role) != identity_encoding(),
{
    assert(DIVERSIFIER_BASE@[0] == 167u8);
    assert(SPENDING_KEY_BASE@[0] == 244u8);
    assert(identity_encoding()[0] == 1u8);
}

} // verus!
