//! Key derivation, homomorphic balance encryption and genesis assembly for a
//! ledger whose balances are stored only as ciphertexts.

pub mod chain;
pub mod curve;
pub mod elgamal;
pub mod error;
pub mod genesis;
pub mod keys;
pub mod laws;
pub mod ledger;
pub mod params;
