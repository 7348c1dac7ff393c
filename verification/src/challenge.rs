//! The challenge of a proof: a hash of four curve points, cut to the width
//! that the suite fixes.
use vstd::prelude::*;
use crate::backend::{digest, sha256};
use crate::bytes::{append, prefix, spec_prefix};
use crate::suite::{lemma_widths, CipherSuite};

verus! {

/// The byte that marks a hash input as one of the challenge.
pub const CHALLENGE_TAG: u8 = 0x02;

/// What is hashed for the challenge: the suite byte, the tag of the challenge,
/// and the four points in their fixed order.
pub open spec fn spec_challenge_input(suite: CipherSuite, h: Seq<u8>, gamma: Seq<u8>, u: Seq<u8>, v: Seq<u8>) -> Seq<
    u8,
> {
    seq![suite.spec_suite_string(), CHALLENGE_TAG] + h + gamma + u + v
}

/// Builds what is hashed for the challenge.
pub fn challenge_input(suite: CipherSuite, h: &[u8], gamma: &[u8], u: &[u8], v: &[u8]) -> (r: Vec<u8>)
    ensures
        r@ == spec_challenge_input(suite, h@, gamma@, u@, v@),
{
    let mut input: Vec<u8> = Vec::new();
    input.push(suite.suite_string());
    input.push(CHALLENGE_TAG);
    proof {
        assert(input@ =~= seq![suite.spec_suite_string(), CHALLENGE_TAG]);
    }
    append(&mut input, h);
    append(&mut input, gamma);
    append(&mut input, u);
    append(&mut input, v);
    input
}

/// The leading bytes of a digest that make up a challenge.
pub open spec fn spec_truncate(suite: CipherSuite, digest: Seq<u8>) -> Seq<u8> {
    spec_prefix(digest, suite.spec_challenge_len() as nat)
}

/// Cuts a digest to the bytes that make up a challenge.
pub fn truncate(suite: CipherSuite, digest: &[u8]) -> (r: Vec<u8>)
    ensures
        r@ == spec_truncate(suite, digest@),
        r@.len() <= suite.spec_challenge_len(),
        digest@.len() >= suite.spec_challenge_len() ==> r@.len() == suite.spec_challenge_len(),
{
    prefix(digest, suite.challenge_len())
}

/// The challenge of the four points `h`, `gamma`, `u` and `v`.
pub open spec fn spec_challenge(suite: CipherSuite, h: Seq<u8>, gamma: Seq<u8>, u: Seq<u8>, v: Seq<u8>) -> Seq<
    u8,
> {
    spec_truncate(suite, sha256(spec_challenge_input(suite, h, gamma, u, v)))
}

/// Computes the challenge of the four points `h`, `gamma`, `u` and `v`. The
/// order of the points is fixed: prover and verifier hash them alike.
pub fn challenge(suite: CipherSuite, h: &[u8], gamma: &[u8], u: &[u8], v: &[u8]) -> (r: Vec<u8>)
    ensures
        r@ == spec_challenge(suite, h@, gamma@, u@, v@),
        r@.len() == suite.spec_challenge_len(),
{
    let input = challenge_input(suite, h, gamma, u, v);
    let hash = digest(input.as_slice());
    proof {
        lemma_widths(suite);
    }
    truncate(suite, hash.as_slice())
}

} // verus!
