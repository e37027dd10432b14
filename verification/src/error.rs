use vstd::prelude::*;

verus! {

/// Everything that can go wrong while keys are derived, balances are
/// encrypted or decrypted, and the verifying key is loaded.
#[derive(Clone, Copy, Debug, PartialEq, Eq, Structural)]
pub enum Error {
    /// A seed was not exactly 32 bytes long.
    InvalidSeedLength,
    /// Bytes that should encode a curve point do not decode to one.
    PointNotOnCurve,
    /// A curve point lies outside the prime-order subgroup, or is the
    /// neutral element where a key is expected.
    SubgroupCheckFailed,
    /// A ciphertext does not open to any balance in the supported range.
    DecryptionFailed,
    /// The verifying-key file does not exist.
    FileNotFound,
    /// The verifying-key file could not be read.
    IoError,
    /// No secure randomness could be obtained.
    RandomSourceUnavailable,
}

} // verus!
