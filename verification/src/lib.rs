//! Verifiable random functions over elliptic curves.
//!
//! A verifiable random function turns a secret key and a message into a
//! pseudorandom output together with a proof, and lets anyone who holds the
//! public key check that the output belongs to the message.
//!
//! [`VRF`] is the contract that every implementation follows. [`ecvrf`] holds
//! the engine for three cipher suites, which share SHA-256 and the
//! try-and-increment map to the curve and differ in the curve: NIST P-256,
//! secp256k1 and NIST K-163. [`dummy`] holds a stand-in without cryptography.
//!
//! The engine is built from [`hash_to_curve`], [`nonce`], [`challenge`] and
//! [`codec`], over the constants of [`suite`] and the byte strings of
//! [`bytes`], [`bits`] and [`point`]. Hashing and the arithmetic of curve and
//! scalars are consumed from a provider, in [`backend`]. [`theorems`] states
//! what holds of the engine as a whole.
use vstd::prelude::*;

pub mod backend;
pub mod bits;
pub mod bytes;
pub mod challenge;
pub mod codec;
pub mod dummy;
pub mod ecvrf;
pub mod error;
pub mod hash_to_curve;
pub mod nonce;
pub mod point;
pub mod suite;
pub mod theorems;

verus! {

/// The capabilities shared by every verifiable random function.
pub trait VRF<PublicKey, SecretKey> {
    type Error;

    /// Produces the proof that binds the secret key `x` to the message `alpha`.
    fn prove(&mut self, x: SecretKey, alpha: &[u8]) -> Result<Vec<u8>, Self::Error>;

    /// Checks the proof `pi` for the message `alpha` under the public key `y`
    /// and returns the pseudorandom output.
    fn verify(&mut self, y: PublicKey, pi: &[u8], alpha: &[u8]) -> Result<Vec<u8>, Self::Error>;

    /// Computes the curve points that let a verifier without scalar
    /// multiplication check the proof: the affine coordinates of
    /// `U = s * B - c * Y`, of `s * H` and of `c * Gamma`, in this order.
    fn precompute(&mut self, y: PublicKey, pi: &[u8], alpha: &[u8]) -> Result<[Vec<u8>; 6], Self::Error>;

    /// Rewrites a proof from its compressed to its uncompressed form: the two
    /// affine coordinates of Gamma, the challenge and the response.
    fn expand(&mut self, pi: &[u8]) -> Result<[Vec<u8>; 4], Self::Error>;
}

} // verus!
