//! The elliptic-curve engine: proving, verifying, and the two transforms of a
//! proof.
use vstd::prelude::*;
use crate::backend::{
    bn_mod_add, bn_mod_mul, digest, ec_add, ec_affine, ec_invert, ec_mul, ec_mul_generator,
    number_mod_add, number_mod_mul, opt_pair_view, opt_view, point_add, point_affine, point_invert,
    point_mul, point_mul_generator, sha256, MAX_NUMBER_LEN,
};
use crate::bytes::{append, be_value, in_range, left_pad, same_bytes, spec_in_range, spec_left_pad};
use crate::challenge::{challenge, spec_challenge};
use crate::codec::{spec_decode, spec_split, Proof, ProofView};
use crate::error::{result_view, Error};
use crate::hash_to_curve::{hash_to_curve, spec_hash_to_curve};
use crate::nonce::{generate_nonce, spec_generate_nonce};
use crate::point::{
    clear_cofactor, spec_clear_cofactor, spec_subgroup_point, spec_valid_point, subgroup_point,
    valid_point,
};
use crate::suite::{lemma_widths, CipherSuite};
use crate::VRF;
use vstd::arithmetic::div_mod::lemma_mod_bound;

verus! {

/// The byte that marks a hash input as one of the output of the function.
pub const OUTPUT_TAG: u8 = 0x03;

/// A secret key of the suite: a scalar of the suite's width from 1 up to, but
/// not including, the group order.
pub open spec fn spec_valid_secret_key(suite: CipherSuite, x: Seq<u8>) -> bool {
    spec_in_range(x, suite.spec_order())
}

/// Whether `x` is a secret key of the suite.
pub fn valid_secret_key(suite: CipherSuite, x: &[u8]) -> (r: bool)
    ensures
        r == spec_valid_secret_key(suite, x@),
{
    let order = suite.order();
    in_range(x, order.as_slice())
}

/// The public key of the secret key `x`: `x` times the generator, in
/// compressed form. What the provider computes is accepted only if it is a
/// point of the prime-order subgroup.
pub open spec fn spec_public_key(suite: CipherSuite, x: Seq<u8>) -> Result<Seq<u8>, Error> {
    if !spec_valid_secret_key(suite, x) {
        Err(Error::InvalidSecretKey)
    } else {
        match spec_subgroup_point(suite, ec_mul_generator(suite, x)) {
            Some(y) => Ok(y),
            None => Err(Error::ArithmeticFailure),
        }
    }
}

/// Derives the public key of the secret key `x`.
pub fn derive_public_key(suite: CipherSuite, x: &[u8]) -> (r: Result<Vec<u8>, Error>)
    ensures
        result_view(r) == spec_public_key(suite, x@),
        !spec_valid_secret_key(suite, x@) <==> r matches Err(Error::InvalidSecretKey),
        r matches Err(e) ==> e == Error::InvalidSecretKey || e == Error::ArithmeticFailure,
        r matches Ok(y) ==> spec_valid_point(suite, y@),
{
    if !valid_secret_key(suite, x) {
        return Err(Error::InvalidSecretKey);
    }
    proof {
        lemma_widths(suite);
    }
    match subgroup_point(suite, point_mul_generator(suite, x)) {
        Some(y) => Ok(y),
        None => Err(Error::ArithmeticFailure),
    }
}

/// The difference of two points: `p` plus the inverse of `q`.
pub open spec fn spec_point_sub(suite: CipherSuite, p: Seq<u8>, q: Seq<u8>) -> Option<Seq<u8>> {
    match ec_invert(suite, q) {
        Some(negated) => ec_add(suite, p, negated),
        None => None,
    }
}

/// Subtracts the point `q` from the point `p`.
pub fn point_sub(suite: CipherSuite, p: &[u8], q: &[u8]) -> (r: Option<Vec<u8>>)
    ensures
        opt_view(r) == spec_point_sub(suite, p@, q@),
{
    match point_invert(suite, q) {
        Some(negated) => point_add(suite, p, negated.as_slice()),
        None => None,
    }
}

/// The point `s * B - c * Y` of the verification equation, where `B` is the
/// generator and `Y` the public key.
pub open spec fn spec_u_point(suite: CipherSuite, y: Seq<u8>, c: Seq<u8>, s: Seq<u8>) -> Option<Seq<u8>> {
    match (ec_mul_generator(suite, s), ec_mul(suite, y, c)) {
        (Some(s_b), Some(c_y)) => spec_point_sub(suite, s_b, c_y),
        _ => None,
    }
}

/// Computes the point `s * B - c * Y`.
pub fn u_point(suite: CipherSuite, y: &[u8], c: &[u8], s: &[u8]) -> (r: Option<Vec<u8>>)
    requires
        c@.len() <= MAX_NUMBER_LEN,
        s@.len() <= MAX_NUMBER_LEN,
    ensures
        opt_view(r) == spec_u_point(suite, y@, c@, s@),
{
    proof {
        lemma_widths(suite);
    }
    let s_b = point_mul_generator(suite, s);
    let c_y = point_mul(suite, y, c);
    match (s_b, c_y) {
        (Some(s_b), Some(c_y)) => point_sub(suite, s_b.as_slice(), c_y.as_slice()),
        _ => None,
    }
}

/// The two products `s * H` and `c * Gamma` whose difference is the point `V`
/// of the verification equation.
pub open spec fn spec_v_terms(suite: CipherSuite, h: Seq<u8>, gamma: Seq<u8>, c: Seq<u8>, s: Seq<u8>) -> Option<
    (Seq<u8>, Seq<u8>),
> {
    match (ec_mul(suite, h, s), ec_mul(suite, gamma, c)) {
        (Some(s_h), Some(c_gamma)) => Some((s_h, c_gamma)),
        _ => None,
    }
}

/// Computes the two products `s * H` and `c * Gamma`.
pub fn v_terms(suite: CipherSuite, h: &[u8], gamma: &[u8], c: &[u8], s: &[u8]) -> (r: Option<
    (Vec<u8>, Vec<u8>),
>)
    requires
        c@.len() <= MAX_NUMBER_LEN,
        s@.len() <= MAX_NUMBER_LEN,
    ensures
        opt_pair_view(r) == spec_v_terms(suite, h@, gamma@, c@, s@),
{
    proof {
        lemma_widths(suite);
    }
    let s_h = point_mul(suite, h, s);
    let c_gamma = point_mul(suite, gamma, c);
    match (s_h, c_gamma) {
        (Some(s_h), Some(c_gamma)) => Some((s_h, c_gamma)),
        _ => None,
    }
}

/// The point `s * H - c * Gamma` of the verification equation.
pub open spec fn spec_v_point(suite: CipherSuite, h: Seq<u8>, gamma: Seq<u8>, c: Seq<u8>, s: Seq<u8>) -> Option<
    Seq<u8>,
> {
    match spec_v_terms(suite, h, gamma, c, s) {
        Some((s_h, c_gamma)) => spec_point_sub(suite, s_h, c_gamma),
        None => None,
    }
}

/// Computes the point `s * H - c * Gamma`.
pub fn v_point(suite: CipherSuite, h: &[u8], gamma: &[u8], c: &[u8], s: &[u8]) -> (r: Option<Vec<u8>>)
    requires
        c@.len() <= MAX_NUMBER_LEN,
        s@.len() <= MAX_NUMBER_LEN,
    ensures
        opt_view(r) == spec_v_point(suite, h@, gamma@, c@, s@),
{
    match v_terms(suite, h, gamma, c, s) {
        Some((s_h, c_gamma)) => point_sub(suite, s_h.as_slice(), c_gamma.as_slice()),
        None => None,
    }
}

/// The response of a proof: `(k + c * x) mod q`, as a scalar of the suite's
/// width, where `q` is the group order.
pub open spec fn spec_response(suite: CipherSuite, k: Seq<u8>, c: Seq<u8>, x: Seq<u8>) -> Option<Seq<u8>> {
    let q = suite.spec_order();
    let width = suite.spec_scalar_width() as nat;
    match bn_mod_mul(c, x, q, width) {
        Some(c_x) => match bn_mod_add(k, c_x, q, width) {
            Some(s) => if s.len() == width && be_value(s) < be_value(q) {
                Some(s)
            } else {
                None
            },
            None => None,
        },
        None => None,
    }
}

/// Computes the response `(k + c * x) mod q`.
pub fn response(suite: CipherSuite, k: &[u8], c: &[u8], x: &[u8]) -> (r: Option<Vec<u8>>)
    requires
        k@.len() <= MAX_NUMBER_LEN,
        c@.len() <= MAX_NUMBER_LEN,
        x@.len() <= MAX_NUMBER_LEN,
    ensures
        opt_view(r) == spec_response(suite, k@, c@, x@),
        r matches Some(s) ==> s@.len() == suite.spec_scalar_width() && be_value(s@) == (be_value(k@)
            + (be_value(c@) * be_value(x@)) % be_value(suite.spec_order())) % be_value(
            suite.spec_order(),
        ),
{
    let q = suite.order();
    let width = suite.scalar_width();
    proof {
        lemma_widths(suite);
    }
    match number_mod_mul(c, x, q.as_slice(), width) {
        Some(c_x) => match number_mod_add(k, c_x.as_slice(), q.as_slice(), width) {
            Some(s) => {
                proof {
                    lemma_mod_bound(
                        (be_value(k@) + be_value(c_x@)) as int,
                        be_value(q@) as int,
                    );
                }
                Some(s)
            },
            None => None,
        },
        None => None,
    }
}

/// What is hashed for the output: the suite byte, the tag of the output, and
/// a point.
pub open spec fn spec_output_input(suite: CipherSuite, point: Seq<u8>) -> Seq<u8> {
    seq![suite.spec_suite_string(), OUTPUT_TAG] + point
}

/// The output that belongs to the point Gamma: the digest of Gamma taken into
/// the prime-order subgroup. A string that encodes no point has no output.
pub open spec fn spec_gamma_to_hash(suite: CipherSuite, gamma: Seq<u8>) -> Result<Seq<u8>, Error> {
    match spec_clear_cofactor(suite, gamma) {
        Some(cleared) => Ok(sha256(spec_output_input(suite, cleared))),
        None => Err(Error::InvalidProofEncoding),
    }
}

/// Computes the output that belongs to the point Gamma.
pub fn gamma_to_hash(suite: CipherSuite, gamma: &[u8]) -> (r: Result<Vec<u8>, Error>)
    ensures
        result_view(r) == spec_gamma_to_hash(suite, gamma@),
        r matches Ok(beta) ==> beta@.len() == 32,
        r matches Err(e) ==> e == Error::InvalidProofEncoding,
{
    match clear_cofactor(suite, gamma) {
        Some(cleared) => {
            let mut input: Vec<u8> = Vec::new();
            input.push(suite.suite_string());
            input.push(OUTPUT_TAG);
            proof {
                assert(input@ =~= seq![suite.spec_suite_string(), OUTPUT_TAG]);
            }
            append(&mut input, cleared.as_slice());
            Ok(digest(input.as_slice()))
        },
        None => Err(Error::InvalidProofEncoding),
    }
}

/// The output that belongs to a proof, without any check of the proof against
/// a public key or a message.
pub open spec fn spec_proof_to_hash(suite: CipherSuite, pi: Seq<u8>) -> Result<Seq<u8>, Error> {
    match spec_decode(suite, pi) {
        Ok(p) => spec_gamma_to_hash(suite, p.gamma),
        Err(e) => Err(e),
    }
}

/// Computes the output that belongs to a proof. The proof is decoded, not
/// verified.
pub fn proof_to_hash(suite: CipherSuite, pi: &[u8]) -> (r: Result<Vec<u8>, Error>)
    ensures
        result_view(r) == spec_proof_to_hash(suite, pi@),
        pi@.len() != suite.spec_proof_width() ==> r matches Err(Error::InvalidProofLength),
{
    match Proof::decode(suite, pi) {
        Ok(p) => gamma_to_hash(suite, p.gamma.as_slice()),
        Err(e) => Err(e),
    }
}

/// Whether a challenge that was computed anew is the challenge that a proof
/// carries: the proof carries it with zero bytes in front, up to the suite's
/// challenge width.
pub open spec fn spec_challenge_matches(suite: CipherSuite, carried: Seq<u8>, derived: Seq<u8>) -> bool {
    spec_left_pad(derived, suite.spec_challenge_width() as nat) == carried
}

/// Compares the challenge that a proof carries with one that was computed
/// anew. The comparison looks at every byte.
pub fn challenge_matches(suite: CipherSuite, carried: &[u8], derived: &[u8]) -> (r: bool)
    ensures
        r == spec_challenge_matches(suite, carried@, derived@),
{
    let padded = left_pad(derived, suite.challenge_width());
    same_bytes(padded.as_slice(), carried)
}

/// The proof of the secret key `x` for the message `alpha`.
///
/// With `Y = x * B` the public key and `H` the point that `Y` and `alpha` are
/// mapped to: `Gamma = x * H`, accepted only if it is a point of the
/// prime-order subgroup; the nonce `k` is derived from `x` and the
/// digest of `alpha`; the challenge `c` is that of `H`, `Gamma`, `k * B` and
/// `k * H`; the response is `s = (k + c * x) mod q`. The proof is the encoding
/// of `Gamma`, `c` and `s`.
pub open spec fn spec_prove(suite: CipherSuite, x: Seq<u8>, alpha: Seq<u8>) -> Result<Seq<u8>, Error> {
    match spec_public_key(suite, x) {
        Err(e) => Err(e),
        Ok(y) => match spec_hash_to_curve(suite, y, alpha) {
            Err(e) => Err(e),
            Ok(h) => match spec_subgroup_point(suite, ec_mul(suite, h, x)) {
                None => Err(Error::ArithmeticFailure),
                Some(gamma) => match spec_generate_nonce(suite, x, sha256(alpha)) {
                    Err(e) => Err(e),
                    Ok(k) => spec_prove_with_nonce(suite, x, h, gamma, k),
                },
            },
        },
    }
}

/// The proof of the secret key `x` once the point `H`, the point `Gamma` and
/// the nonce `k` are known.
pub open spec fn spec_prove_with_nonce(
    suite: CipherSuite,
    x: Seq<u8>,
    h: Seq<u8>,
    gamma: Seq<u8>,
    k: Seq<u8>,
) -> Result<Seq<u8>, Error> {
    match (ec_mul_generator(suite, k), ec_mul(suite, h, k)) {
        (Some(u), Some(v)) => {
            let c = spec_left_pad(
                spec_challenge(suite, h, gamma, u, v),
                suite.spec_challenge_width() as nat,
            );
            match spec_response(suite, k, c, x) {
                Some(s) => Ok(ProofView { gamma, c, s }.encoding()),
                None => Err(Error::ArithmeticFailure),
            }
        },
        _ => Err(Error::ArithmeticFailure),
    }
}

/// Completes a proof from the point `H`, the point `Gamma` and the nonce `k`.
pub fn prove_with_nonce(suite: CipherSuite, x: &[u8], h: &[u8], gamma: &[u8], k: &[u8]) -> (r: Result<
    Vec<u8>,
    Error,
>)
    requires
        x@.len() <= MAX_NUMBER_LEN,
        k@.len() <= MAX_NUMBER_LEN,
    ensures
        result_view(r) == spec_prove_with_nonce(suite, x@, h@, gamma@, k@),
        r matches Ok(pi) ==> pi@.len() == gamma@.len() + suite.spec_challenge_width()
            + suite.spec_scalar_width(),
        r matches Err(e) ==> e == Error::ArithmeticFailure,
{
    proof {
        lemma_widths(suite);
    }
    let u = point_mul_generator(suite, k);
    let v = point_mul(suite, h, k);
    match (u, v) {
        (Some(u), Some(v)) => {
            let derived = challenge(suite, h, gamma, u.as_slice(), v.as_slice());
            let c = left_pad(derived.as_slice(), suite.challenge_width());
            match response(suite, k, c.as_slice(), x) {
                Some(s) => {
                    let mut pi: Vec<u8> = Vec::new();
                    append(&mut pi, gamma);
                    append(&mut pi, c.as_slice());
                    append(&mut pi, s.as_slice());
                    proof {
                        assert(pi@ =~= ProofView { gamma: gamma@, c: c@, s: s@ }.encoding());
                    }
                    Ok(pi)
                },
                None => Err(Error::ArithmeticFailure),
            }
        },
        _ => Err(Error::ArithmeticFailure),
    }
}

/// Produces the proof of the secret key `x` for the message `alpha`.
///
/// A key of the wrong length, a key that is zero and a key that is not below
/// the group order are refused. The proof is a function of the suite, the key
/// and the message alone, and has the suite's proof width.
pub fn prove(suite: CipherSuite, x: &[u8], alpha: &[u8]) -> (r: Result<Vec<u8>, Error>)
    ensures
        result_view(r) == spec_prove(suite, x@, alpha@),
        !spec_valid_secret_key(suite, x@) <==> r matches Err(Error::InvalidSecretKey),
        r matches Ok(pi) ==> pi@.len() == suite.spec_proof_width(),
        r matches Err(e) ==> e == Error::InvalidSecretKey || e == Error::HashToCurveExhausted || e
            == Error::NonceExhausted || e == Error::ArithmeticFailure,
{
    let y = match derive_public_key(suite, x) {
        Ok(y) => y,
        Err(e) => {
            return Err(e);
        },
    };
    let h = match hash_to_curve(suite, y.as_slice(), alpha) {
        Ok(h) => h,
        Err(e) => {
            return Err(e);
        },
    };
    proof {
        lemma_widths(suite);
    }
    let gamma = match subgroup_point(suite, point_mul(suite, h.as_slice(), x)) {
        Some(gamma) => gamma,
        None => {
            return Err(Error::ArithmeticFailure);
        },
    };
    let hashed = digest(alpha);
    let k = match generate_nonce(suite, x, hashed.as_slice()) {
        Ok(k) => k,
        Err(e) => {
            return Err(e);
        },
    };
    prove_with_nonce(suite, x, h.as_slice(), gamma.as_slice(), k.as_slice())
}

/// What the comparison of the challenges decides: the output of Gamma where
/// they match, a failed verification where they do not.
pub open spec fn spec_judge(suite: CipherSuite, p: ProofView, derived: Seq<u8>) -> Result<Seq<u8>, Error> {
    if spec_challenge_matches(suite, p.c, derived) {
        spec_gamma_to_hash(suite, p.gamma)
    } else {
        Err(Error::VerificationFailed)
    }
}

/// Decides a verification from the proof and the challenge computed anew.
pub fn judge(suite: CipherSuite, p: &Proof, derived: &[u8]) -> (r: Result<Vec<u8>, Error>)
    ensures
        result_view(r) == spec_judge(suite, p@, derived@),
        !spec_challenge_matches(suite, p@.c, derived@) ==> r matches Err(Error::VerificationFailed),
        r matches Ok(beta) ==> beta@.len() == 32,
{
    if challenge_matches(suite, p.c.as_slice(), derived) {
        gamma_to_hash(suite, p.gamma.as_slice())
    } else {
        Err(Error::VerificationFailed)
    }
}

/// The challenge that verification computes anew from a decoded proof, a
/// public key and the point `H`.
pub open spec fn spec_derived_challenge(suite: CipherSuite, y: Seq<u8>, h: Seq<u8>, p: ProofView) -> Option<
    Seq<u8>,
> {
    match (spec_u_point(suite, y, p.c, p.s), spec_v_point(suite, h, p.gamma, p.c, p.s)) {
        (Some(u), Some(v)) => Some(spec_challenge(suite, h, p.gamma, u, v)),
        _ => None,
    }
}

/// The outcome of verifying the proof `pi` for the message `alpha` under the
/// public key `y`.
///
/// The proof is decoded first, its length before anything else. Then the
/// public key must be a point of the prime-order subgroup. With `H` the point
/// that `y` and `alpha` are mapped to, `U = s * B - c * Y` and
/// `V = s * H - c * Gamma`, the challenge of `H`, `Gamma`, `U` and `V` must be
/// the challenge that the proof carries. Then the output is that of `Gamma`.
pub open spec fn spec_verify(suite: CipherSuite, y: Seq<u8>, pi: Seq<u8>, alpha: Seq<u8>) -> Result<
    Seq<u8>,
    Error,
> {
    match spec_decode(suite, pi) {
        Err(e) => Err(e),
        Ok(p) => if !spec_valid_point(suite, y) {
            Err(Error::InvalidPublicKey)
        } else {
            match spec_hash_to_curve(suite, y, alpha) {
                Err(e) => Err(e),
                Ok(h) => match spec_derived_challenge(suite, y, h, p) {
                    Some(derived) => spec_judge(suite, p, derived),
                    None => Err(Error::ArithmeticFailure),
                },
            }
        },
    }
}

/// Verifies the proof `pi` for the message `alpha` under the public key `y`
/// and returns the output of the function.
///
/// A proof of the wrong length is refused before any curve arithmetic. A
/// malformed proof or key is reported as such; a well-formed proof that does
/// not satisfy the verification equation is reported as a failed verification.
pub fn verify(suite: CipherSuite, y: &[u8], pi: &[u8], alpha: &[u8]) -> (r: Result<Vec<u8>, Error>)
    ensures
        result_view(r) == spec_verify(suite, y@, pi@, alpha@),
        pi@.len() != suite.spec_proof_width() <==> r matches Err(Error::InvalidProofLength),
        r matches Ok(beta) ==> beta@.len() == 32,
{
    let p = match Proof::decode(suite, pi) {
        Ok(p) => p,
        Err(e) => {
            return Err(e);
        },
    };
    if !valid_point(suite, y) {
        return Err(Error::InvalidPublicKey);
    }
    let h = match hash_to_curve(suite, y, alpha) {
        Ok(h) => h,
        Err(e) => {
            return Err(e);
        },
    };
    let u = u_point(suite, y, p.c.as_slice(), p.s.as_slice());
    let v = v_point(suite, h.as_slice(), p.gamma.as_slice(), p.c.as_slice(), p.s.as_slice());
    match (u, v) {
        (Some(u), Some(v)) => {
            let derived = challenge(suite, h.as_slice(), p.gamma.as_slice(), u.as_slice(), v.as_slice());
            judge(suite, &p, derived.as_slice())
        },
        _ => Err(Error::ArithmeticFailure),
    }
}

/// Byte vectors as byte strings.
pub open spec fn strings(parts: Seq<Vec<u8>>) -> Seq<Seq<u8>> {
    Seq::new(parts.len(), |i: int| parts[i]@)
}

/// The affine coordinates of three points, one after the other; nothing where
/// one of the points has no affine coordinates.
pub open spec fn spec_coordinates(suite: CipherSuite, p0: Seq<u8>, p1: Seq<u8>, p2: Seq<u8>) -> Option<
    Seq<Seq<u8>>,
> {
    let width = suite.spec_field_width() as nat;
    match (ec_affine(suite, p0, width), ec_affine(suite, p1, width), ec_affine(suite, p2, width)) {
        (Some((x0, y0)), Some((x1, y1)), Some((x2, y2))) => Some(seq![x0, y0, x1, y1, x2, y2]),
        _ => None,
    }
}

/// The three points that a verifier without scalar multiplication needs:
/// `U = s * B - c * Y`, `s * H` and `c * Gamma`.
pub open spec fn spec_witness_points(suite: CipherSuite, y: Seq<u8>, h: Seq<u8>, p: ProofView) -> Option<
    (Seq<u8>, Seq<u8>, Seq<u8>),
> {
    match (spec_u_point(suite, y, p.c, p.s), spec_v_terms(suite, h, p.gamma, p.c, p.s)) {
        (Some(u), Some((s_h, c_gamma))) => Some((u, s_h, c_gamma)),
        _ => None,
    }
}

/// The witnesses of the proof `pi` for the message `alpha` under the public
/// key `y`: the affine coordinates of `U`, of `s * H` and of `c * Gamma`, in
/// this order, `x` before `y`, each as a number of the width of a field
/// element.
///
/// Proof and key are decoded and checked as in verification. The challenge is
/// not compared.
pub open spec fn spec_precompute(suite: CipherSuite, y: Seq<u8>, pi: Seq<u8>, alpha: Seq<u8>) -> Result<
    Seq<Seq<u8>>,
    Error,
> {
    match spec_decode(suite, pi) {
        Err(e) => Err(e),
        Ok(p) => if !spec_valid_point(suite, y) {
            Err(Error::InvalidPublicKey)
        } else {
            match spec_hash_to_curve(suite, y, alpha) {
                Err(e) => Err(e),
                Ok(h) => match spec_witness_points(suite, y, h, p) {
                    Some((u, s_h, c_gamma)) => match spec_coordinates(suite, u, s_h, c_gamma) {
                        Some(witnesses) => Ok(witnesses),
                        None => Err(Error::ArithmeticFailure),
                    },
                    None => Err(Error::ArithmeticFailure),
                },
            }
        },
    }
}

/// Computes the witnesses with which a verifier that cannot multiply points
/// by scalars checks the proof `pi`: the affine coordinates of
/// `U = s * B - c * Y`, of `s * H` and of `c * Gamma`.
///
/// Such a verifier forms `V = s * H - c * Gamma` by one point addition and
/// compares the challenge of `H`, `Gamma`, `U` and `V` with the challenge of
/// the proof. This function does not judge the proof.
pub fn precompute(suite: CipherSuite, y: &[u8], pi: &[u8], alpha: &[u8]) -> (r: Result<
    [Vec<u8>; 6],
    Error,
>)
    ensures
        match r {
            Ok(witnesses) => spec_precompute(suite, y@, pi@, alpha@) == Ok::<Seq<Seq<u8>>, Error>(
                strings(witnesses@),
            ),
            Err(e) => spec_precompute(suite, y@, pi@, alpha@) == Err::<Seq<Seq<u8>>, Error>(e),
        },
        pi@.len() != suite.spec_proof_width() <==> r matches Err(Error::InvalidProofLength),
        r matches Ok(witnesses) ==> forall|i: int|
            0 <= i < 6 ==> (#[trigger] witnesses@[i])@.len() == suite.spec_field_width(),
{
    let p = match Proof::decode(suite, pi) {
        Ok(p) => p,
        Err(e) => {
            return Err(e);
        },
    };
    if !valid_point(suite, y) {
        return Err(Error::InvalidPublicKey);
    }
    let h = match hash_to_curve(suite, y, alpha) {
        Ok(h) => h,
        Err(e) => {
            return Err(e);
        },
    };
    let u = u_point(suite, y, p.c.as_slice(), p.s.as_slice());
    let terms = v_terms(suite, h.as_slice(), p.gamma.as_slice(), p.c.as_slice(), p.s.as_slice());
    let (u, s_h, c_gamma) = match (u, terms) {
        (Some(u), Some((s_h, c_gamma))) => (u, s_h, c_gamma),
        _ => {
            return Err(Error::ArithmeticFailure);
        },
    };
    proof {
        lemma_widths(suite);
    }
    let width = suite.field_width();
    let a0 = point_affine(suite, u.as_slice(), width);
    let a1 = point_affine(suite, s_h.as_slice(), width);
    let a2 = point_affine(suite, c_gamma.as_slice(), width);
    match (a0, a1, a2) {
        (Some((x0, y0)), Some((x1, y1)), Some((x2, y2))) => {
            let witnesses = [x0, y0, x1, y1, x2, y2];
            proof {
                assert(strings(witnesses@) =~= seq![x0@, y0@, x1@, y1@, x2@, y2@]);
            }
            Ok(witnesses)
        },
        _ => Err(Error::ArithmeticFailure),
    }
}

/// The uncompressed form of the proof `pi`: the two affine coordinates of
/// Gamma, each as a number of the width of a field element, then the
/// challenge and the response as the proof carries them.
///
/// Only the length of the proof and the decoding of Gamma are looked at.
pub open spec fn spec_expand(suite: CipherSuite, pi: Seq<u8>) -> Result<Seq<Seq<u8>>, Error> {
    match spec_split(suite, pi) {
        Err(e) => Err(e),
        Ok(p) => match ec_affine(suite, p.gamma, suite.spec_field_width() as nat) {
            Some((x, y)) => Ok(seq![x, y, p.c, p.s]),
            None => Err(Error::InvalidProofEncoding),
        },
    }
}

/// Rewrites the proof `pi` in uncompressed form: the two affine coordinates of
/// Gamma, the challenge and the response. Nothing is verified.
pub fn expand(suite: CipherSuite, pi: &[u8]) -> (r: Result<[Vec<u8>; 4], Error>)
    ensures
        match r {
            Ok(parts) => spec_expand(suite, pi@) == Ok::<Seq<Seq<u8>>, Error>(strings(parts@)),
            Err(e) => spec_expand(suite, pi@) == Err::<Seq<Seq<u8>>, Error>(e),
        },
        pi@.len() != suite.spec_proof_width() <==> r matches Err(Error::InvalidProofLength),
        r matches Err(e) ==> e == Error::InvalidProofLength || e == Error::InvalidProofEncoding,
{
    let p = match Proof::split(suite, pi) {
        Ok(p) => p,
        Err(e) => {
            return Err(e);
        },
    };
    proof {
        lemma_widths(suite);
    }
    match point_affine(suite, p.gamma.as_slice(), suite.field_width()) {
        Some((x, y)) => {
            let parts = [x, y, p.c, p.s];
            proof {
                assert(strings(parts@) =~= seq![x@, y@, p@.c, p@.s]);
            }
            Ok(parts)
        },
        None => Err(Error::InvalidProofEncoding),
    }
}

/// The engine of one cipher suite. It holds no state besides the suite.
#[derive(Clone, Copy, Debug)]
pub struct ECVRF {
    /// The suite whose constants the engine works with.
    pub suite: CipherSuite,
}

impl ECVRF {
    /// The engine of `suite`.
    pub fn from_suite(suite: CipherSuite) -> (r: Self)
        ensures
            r.suite == suite,
    {
        ECVRF { suite }
    }

    /// Derives the public key of the secret key `x`.
    pub fn derive_public_key(&self, x: &[u8]) -> (r: Result<Vec<u8>, Error>)
        ensures
            result_view(r) == spec_public_key(self.suite, x@),
    {
        derive_public_key(self.suite, x)
    }

    /// Computes the output that belongs to a proof, without verifying it.
    pub fn proof_to_hash(&self, pi: &[u8]) -> (r: Result<Vec<u8>, Error>)
        ensures
            result_view(r) == spec_proof_to_hash(self.suite, pi@),
    {
        proof_to_hash(self.suite, pi)
    }
}

impl<'a> VRF<&'a [u8], &'a [u8]> for ECVRF {
    type Error = Error;

    fn prove(&mut self, x: &'a [u8], alpha: &[u8]) -> (r: Result<Vec<u8>, Error>)
        ensures
            *final(self) == *old(self),
            result_view(r) == spec_prove(old(self).suite, x@, alpha@),
    {
        prove(self.suite, x, alpha)
    }

    fn verify(&mut self, y: &'a [u8], pi: &[u8], alpha: &[u8]) -> (r: Result<Vec<u8>, Error>)
        ensures
            *final(self) == *old(self),
            result_view(r) == spec_verify(old(self).suite, y@, pi@, alpha@),
    {
        verify(self.suite, y, pi, alpha)
    }

    fn precompute(&mut self, y: &'a [u8], pi: &[u8], alpha: &[u8]) -> (r: Result<[Vec<u8>; 6], Error>)
        ensures
            *final(self) == *old(self),
            match r {
                Ok(witnesses) => spec_precompute(old(self).suite, y@, pi@, alpha@) == Ok::<
                    Seq<Seq<u8>>,
                    Error,
                >(strings(witnesses@)),
                Err(e) => spec_precompute(old(self).suite, y@, pi@, alpha@) == Err::<
                    Seq<Seq<u8>>,
                    Error,
                >(e),
            },
    {
        precompute(self.suite, y, pi, alpha)
    }

    fn expand(&mut self, pi: &[u8]) -> (r: Result<[Vec<u8>; 4], Error>)
        ensures
            *final(self) == *old(self),
            match r {
                Ok(parts) => spec_expand(old(self).suite, pi@) == Ok::<Seq<Seq<u8>>, Error>(
                    strings(parts@),
                ),
                Err(e) => spec_expand(old(self).suite, pi@) == Err::<Seq<Seq<u8>>, Error>(e),
            },
    {
        expand(self.suite, pi)
    }
}

} // verus!
