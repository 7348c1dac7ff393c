//! What holds of the engine as a whole, stated over the functions that its
//! contracts speak of.
use vstd::prelude::*;
use crate::backend::{ec_affine, ec_mul, ec_mul_generator, sha256};
use crate::bytes::{lemma_left_pad, spec_left_pad};
use crate::challenge::spec_challenge;
use crate::codec::{
    lemma_encoding_split, lemma_split_encoding, spec_decode, spec_split, ProofView,
};
use crate::ecvrf::{
    spec_challenge_matches, spec_coordinates, spec_derived_challenge, spec_expand,
    spec_gamma_to_hash, spec_judge, spec_point_sub, spec_precompute, spec_proof_to_hash,
    spec_prove, spec_prove_with_nonce, spec_public_key, spec_response, spec_u_point,
    spec_v_point, spec_valid_secret_key, spec_verify, spec_witness_points,
};
use crate::error::Error;
use crate::hash_to_curve::{lemma_hash_to_curve_outcome, spec_hash_to_curve};
use crate::nonce::{lemma_nonce_outcome, spec_generate_nonce};
use crate::point::{spec_subgroup_point, spec_valid_point};
use crate::suite::{lemma_widths, CipherSuite};

verus! {

/// The values that proving goes through on its way to a proof.
pub struct Transcript {
    /// The public key `Y = x * B`.
    pub y: Seq<u8>,
    /// The point `H` that the public key and the message are mapped to.
    pub h: Seq<u8>,
    /// The point `Gamma = x * H`.
    pub gamma: Seq<u8>,
    /// The nonce `k`.
    pub k: Seq<u8>,
    /// The proof.
    pub pi: Seq<u8>,
}

/// The values that a successful run of proving goes through.
pub open spec fn spec_transcript(suite: CipherSuite, x: Seq<u8>, alpha: Seq<u8>) -> Transcript {
    let y = spec_public_key(suite, x)->Ok_0;
    let h = spec_hash_to_curve(suite, y, alpha)->Ok_0;
    Transcript {
        y,
        h,
        gamma: spec_subgroup_point(suite, ec_mul(suite, h, x))->Some_0,
        k: spec_generate_nonce(suite, x, sha256(alpha))->Ok_0,
        pi: spec_prove(suite, x, alpha)->Ok_0,
    }
}

/// Proving is deterministic: whatever two runs on one suite, one key and one
/// message return, they return the same.
pub proof fn theorem_prove_deterministic(
    suite: CipherSuite,
    x: Seq<u8>,
    alpha: Seq<u8>,
    first: Result<Seq<u8>, Error>,
    second: Result<Seq<u8>, Error>,
)
    requires
        first == spec_prove(suite, x, alpha),
        second == spec_prove(suite, x, alpha),
    ensures
        first == second,
{
}

/// Proving fails on the key exactly if the key is no secret key of the suite.
pub proof fn theorem_prove_refuses_invalid_key(suite: CipherSuite, x: Seq<u8>, alpha: Seq<u8>)
    ensures
        !spec_valid_secret_key(suite, x) <==> spec_prove(suite, x, alpha) == Err::<Seq<u8>, Error>(
            Error::InvalidSecretKey,
        ),
{
    if spec_public_key(suite, x) is Ok {
        let y = spec_public_key(suite, x)->Ok_0;
        lemma_hash_to_curve_outcome(suite, y, alpha);
        lemma_nonce_outcome(suite, x, sha256(alpha));
    }
}

/// A proof that proving returns is well formed: it has the suite's proof
/// width and decodes, so that its Gamma is a point of the prime-order subgroup
/// and its response is below the group order. It belongs to a public key that
/// is a point of the prime-order subgroup, and the output of its Gamma can be
/// computed from it alone.
pub proof fn theorem_proof_well_formed(suite: CipherSuite, x: Seq<u8>, alpha: Seq<u8>)
    requires
        spec_prove(suite, x, alpha) is Ok,
    ensures
        spec_prove(suite, x, alpha)->Ok_0.len() == suite.spec_proof_width(),
        spec_decode(suite, spec_prove(suite, x, alpha)->Ok_0) is Ok,
        spec_decode(suite, spec_prove(suite, x, alpha)->Ok_0)->Ok_0.gamma == spec_transcript(
            suite,
            x,
            alpha,
        ).gamma,
        spec_public_key(suite, x) is Ok,
        spec_valid_point(suite, spec_public_key(suite, x)->Ok_0),
        spec_proof_to_hash(suite, spec_prove(suite, x, alpha)->Ok_0) == spec_gamma_to_hash(
            suite,
            spec_transcript(suite, x, alpha).gamma,
        ),
{
    lemma_widths(suite);
    let t = spec_transcript(suite, x, alpha);
    assert(spec_prove(suite, x, alpha) == spec_prove_with_nonce(suite, x, t.h, t.gamma, t.k));
    let u = ec_mul_generator(suite, t.k)->Some_0;
    let v = ec_mul(suite, t.h, t.k)->Some_0;
    let derived = spec_challenge(suite, t.h, t.gamma, u, v);
    let c = spec_left_pad(derived, suite.spec_challenge_width() as nat);
    lemma_left_pad(derived, suite.spec_challenge_width() as nat);
    let s = spec_response(suite, t.k, c, x)->Some_0;
    let p = ProofView { gamma: t.gamma, c, s };
    assert(p.has_widths(suite));
    lemma_split_encoding(suite, p);
}

/// What the arithmetic of the curve owes to a proof that proving returned:
/// the two points of the verification equation are the two commitments of the
/// prover, `s * B - c * Y = k * B` and `s * H - c * Gamma = k * H`.
///
/// These are consequences of the group law for `Y = x * B`, `Gamma = x * H`
/// and `s = k + c * x`. They speak of what the provider computes and are not
/// proved here.
pub open spec fn spec_arithmetic_agrees(suite: CipherSuite, x: Seq<u8>, alpha: Seq<u8>) -> bool {
    let t = spec_transcript(suite, x, alpha);
    let p = spec_split(suite, t.pi)->Ok_0;
    &&& spec_u_point(suite, t.y, p.c, p.s) == ec_mul_generator(suite, t.k)
    &&& spec_v_point(suite, t.h, t.gamma, p.c, p.s) == ec_mul(suite, t.h, t.k)
}

/// The round trip, as far as it does not rest on the group law: where proving
/// succeeds and the arithmetic of the curve agrees with it, verifying the
/// proof under the public key of the secret key, for the same message, gives
/// the output that belongs to the Gamma of the proof, which is the output
/// that the proof alone determines.
pub proof fn theorem_round_trip_up_to_arithmetic(suite: CipherSuite, x: Seq<u8>, alpha: Seq<u8>)
    requires
        spec_prove(suite, x, alpha) is Ok,
        spec_arithmetic_agrees(suite, x, alpha),
    ensures
        ({
            let t = spec_transcript(suite, x, alpha);
            &&& spec_verify(suite, t.y, t.pi, alpha) == spec_gamma_to_hash(suite, t.gamma)
            &&& spec_verify(suite, t.y, t.pi, alpha) == spec_proof_to_hash(suite, t.pi)
            &&& !(spec_verify(suite, t.y, t.pi, alpha) matches Err(Error::VerificationFailed))
        }),
{
    lemma_widths(suite);
    let t = spec_transcript(suite, x, alpha);
    assert(spec_prove(suite, x, alpha) == spec_prove_with_nonce(suite, x, t.h, t.gamma, t.k));
    let u = ec_mul_generator(suite, t.k)->Some_0;
    let v = ec_mul(suite, t.h, t.k)->Some_0;
    let derived = spec_challenge(suite, t.h, t.gamma, u, v);
    let c = spec_left_pad(derived, suite.spec_challenge_width() as nat);
    lemma_left_pad(derived, suite.spec_challenge_width() as nat);
    let s = spec_response(suite, t.k, c, x)->Some_0;
    let p = ProofView { gamma: t.gamma, c, s };
    assert(p.has_widths(suite));
    lemma_split_encoding(suite, p);
    assert(spec_decode(suite, t.pi) == Ok::<ProofView, Error>(p));
    assert(spec_derived_challenge(suite, t.y, t.h, p) == Some(derived));
    assert(spec_challenge_matches(suite, p.c, derived));
}

/// A byte string of any length other than the suite's proof width is refused
/// as such by every operation that takes a proof, whatever the other
/// arguments are; and no operation reports a wrong length of a byte string
/// that has the right one.
pub proof fn theorem_length_decides_first(suite: CipherSuite, y: Seq<u8>, pi: Seq<u8>, alpha: Seq<u8>)
    ensures
        pi.len() != suite.spec_proof_width() <==> spec_verify(suite, y, pi, alpha) == Err::<
            Seq<u8>,
            Error,
        >(Error::InvalidProofLength),
        pi.len() != suite.spec_proof_width() <==> spec_precompute(suite, y, pi, alpha) == Err::<
            Seq<Seq<u8>>,
            Error,
        >(Error::InvalidProofLength),
        pi.len() != suite.spec_proof_width() <==> spec_expand(suite, pi) == Err::<
            Seq<Seq<u8>>,
            Error,
        >(Error::InvalidProofLength),
        pi.len() != suite.spec_proof_width() <==> spec_proof_to_hash(suite, pi) == Err::<
            Seq<u8>,
            Error,
        >(Error::InvalidProofLength),
{
    lemma_hash_to_curve_outcome(suite, y, alpha);
}

/// A public key that is no point of the prime-order subgroup, be it off the
/// curve, the identity, or on the curve but outside the subgroup, is never
/// accepted: under it a well-formed proof is answered with the error of the
/// key.
pub proof fn theorem_invalid_public_key_rejected(
    suite: CipherSuite,
    y: Seq<u8>,
    pi: Seq<u8>,
    alpha: Seq<u8>,
)
    requires
        !spec_valid_point(suite, y),
    ensures
        spec_verify(suite, y, pi, alpha) is Err,
        spec_precompute(suite, y, pi, alpha) is Err,
        spec_decode(suite, pi) is Ok ==> spec_verify(suite, y, pi, alpha) == Err::<Seq<u8>, Error>(
            Error::InvalidPublicKey,
        ) && spec_precompute(suite, y, pi, alpha) == Err::<Seq<Seq<u8>>, Error>(
            Error::InvalidPublicKey,
        ),
{
}

/// A proof of the right width whose Gamma is no point of the prime-order
/// subgroup is refused as badly encoded, whatever key and message come with
/// it.
pub proof fn theorem_invalid_gamma_rejected(suite: CipherSuite, y: Seq<u8>, pi: Seq<u8>, alpha: Seq<u8>)
    requires
        spec_split(suite, pi) is Ok,
        !spec_valid_point(suite, spec_split(suite, pi)->Ok_0.gamma),
    ensures
        spec_verify(suite, y, pi, alpha) == Err::<Seq<u8>, Error>(Error::InvalidProofEncoding),
        spec_precompute(suite, y, pi, alpha) == Err::<Seq<Seq<u8>>, Error>(
            Error::InvalidProofEncoding,
        ),
        spec_proof_to_hash(suite, pi) == Err::<Seq<u8>, Error>(Error::InvalidProofEncoding),
{
}

/// A verification that succeeds returns the output that belongs to the Gamma
/// of the proof, which the proof alone determines; and it succeeds only where
/// the challenge computed anew is the challenge that the proof carries.
pub proof fn theorem_verified_output(suite: CipherSuite, y: Seq<u8>, pi: Seq<u8>, alpha: Seq<u8>)
    requires
        spec_verify(suite, y, pi, alpha) is Ok,
    ensures
        spec_decode(suite, pi) is Ok,
        spec_valid_point(suite, y),
        spec_hash_to_curve(suite, y, alpha) is Ok,
        spec_verify(suite, y, pi, alpha) == spec_proof_to_hash(suite, pi),
        spec_verify(suite, y, pi, alpha) == spec_gamma_to_hash(
            suite,
            spec_decode(suite, pi)->Ok_0.gamma,
        ),
        ({
            let p = spec_decode(suite, pi)->Ok_0;
            let h = spec_hash_to_curve(suite, y, alpha)->Ok_0;
            spec_derived_challenge(suite, y, h, p) matches Some(derived) && spec_challenge_matches(
                suite,
                p.c,
                derived,
            )
        }),
{
}

/// The output of a verification that succeeds is decided by the Gamma of the
/// proof: two proofs with one Gamma that verify, under whatever keys and for
/// whatever messages, give one output.
pub proof fn theorem_output_decided_by_gamma(
    suite: CipherSuite,
    y1: Seq<u8>,
    pi1: Seq<u8>,
    alpha1: Seq<u8>,
    y2: Seq<u8>,
    pi2: Seq<u8>,
    alpha2: Seq<u8>,
)
    requires
        spec_verify(suite, y1, pi1, alpha1) is Ok,
        spec_verify(suite, y2, pi2, alpha2) is Ok,
        spec_split(suite, pi1)->Ok_0.gamma == spec_split(suite, pi2)->Ok_0.gamma,
    ensures
        spec_verify(suite, y1, pi1, alpha1) == spec_verify(suite, y2, pi2, alpha2),
{
}

/// A failed verification is reported exactly where proof and key are well
/// formed, the points of the verification equation could be computed, and the
/// challenge computed anew differs from the challenge that the proof carries.
pub proof fn theorem_verification_failed(suite: CipherSuite, y: Seq<u8>, pi: Seq<u8>, alpha: Seq<u8>)
    ensures
        spec_verify(suite, y, pi, alpha) == Err::<Seq<u8>, Error>(Error::VerificationFailed) <==> ({
            &&& spec_decode(suite, pi) matches Ok(p)
            &&& spec_valid_point(suite, y)
            &&& spec_hash_to_curve(suite, y, alpha) matches Ok(h)
            &&& spec_derived_challenge(suite, y, h, p) matches Some(derived)
            &&& !spec_challenge_matches(suite, p.c, derived)
        }),
{
    lemma_hash_to_curve_outcome(suite, y, alpha);
}

/// Expanding a proof that verification decodes gives the affine coordinates of
/// the Gamma that verification works with, and the challenge and the response
/// that verification works with; Gamma itself, the challenge and the response
/// put together again are the proof.
pub proof fn theorem_expand_agrees_with_decode(suite: CipherSuite, pi: Seq<u8>)
    requires
        spec_decode(suite, pi) is Ok,
    ensures
        ({
            let p = spec_decode(suite, pi)->Ok_0;
            let affine = ec_affine(suite, p.gamma, suite.spec_field_width() as nat);
            &&& p.encoding() == pi
            &&& match spec_expand(suite, pi) {
                Ok(parts) => affine == Some((parts[0], parts[1])) && parts[2] == p.c && parts[3]
                    == p.s && parts.len() == 4,
                Err(e) => e == Error::InvalidProofEncoding && affine is None,
            }
        }),
{
    lemma_encoding_split(suite, pi);
}

/// The witnesses are the coordinates of the points of the equation that
/// verification checks: where they can be computed, verification is decided by
/// the challenge of `H`, Gamma, the first witness point `U`, and the
/// difference `V` of the second and the third witness point.
pub proof fn theorem_precompute_agrees_with_verify(
    suite: CipherSuite,
    y: Seq<u8>,
    pi: Seq<u8>,
    alpha: Seq<u8>,
)
    requires
        spec_precompute(suite, y, pi, alpha) is Ok,
    ensures
        spec_decode(suite, pi) is Ok,
        spec_hash_to_curve(suite, y, alpha) is Ok,
        ({
            let p = spec_decode(suite, pi)->Ok_0;
            let h = spec_hash_to_curve(suite, y, alpha)->Ok_0;
            &&& spec_witness_points(suite, y, h, p) matches Some((u, s_h, c_gamma))
            &&& spec_coordinates(suite, u, s_h, c_gamma) == Some(
                spec_precompute(suite, y, pi, alpha)->Ok_0,
            )
            &&& spec_u_point(suite, y, p.c, p.s) == Some(u)
            &&& spec_v_point(suite, h, p.gamma, p.c, p.s) == spec_point_sub(suite, s_h, c_gamma)
            &&& spec_verify(suite, y, pi, alpha) == match spec_point_sub(suite, s_h, c_gamma) {
                Some(v) => spec_judge(suite, p, spec_challenge(suite, h, p.gamma, u, v)),
                None => Err::<Seq<u8>, Error>(Error::ArithmeticFailure),
            }
        }),
{
}

} // verus!
