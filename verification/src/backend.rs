//! The arithmetic provider: hashing, curve arithmetic and arithmetic modulo the
//! group order, as OpenSSL and `hmac-sha256` compute them.
//!
//! Nothing in this module is proved. Each function hands plain byte strings to
//! the outside library and hands plain byte strings back. What the curve and
//! hash functions return is given a name, so that the contracts of the engine
//! can speak of it; what the documentation of the outside library states in a
//! line is stated here as well.
use vstd::prelude::*;
use crate::bytes::be_value;
use crate::suite::CipherSuite;
use openssl::bn::{BigNum, BigNumContext};
use openssl::ec::{EcGroup, EcPoint, PointConversionForm};
use openssl::nid::Nid;
use vstd::arithmetic::power2::pow2;

verus! {

/// The largest length that the provider accepts for a number.
pub const MAX_NUMBER_LEN: usize = 0x7fff_ffff;

/// The SHA-256 digest of `data`.
pub uninterp spec fn sha256(data: Seq<u8>) -> Seq<u8>;

/// The HMAC-SHA256 authentication code of `data` under `key`.
pub uninterp spec fn hmac_sha256(key: Seq<u8>, data: Seq<u8>) -> Seq<u8>;

/// The compressed encoding of the point that `bytes` encodes on the curve of
/// `suite`; `None` where `bytes` encodes no point of the curve.
pub uninterp spec fn ec_decode(suite: CipherSuite, bytes: Seq<u8>) -> Option<Seq<u8>>;

/// The compressed encoding of `scalar` times the point that `point` encodes;
/// `None` where `point` encodes no point of the curve.
pub uninterp spec fn ec_mul(suite: CipherSuite, point: Seq<u8>, scalar: Seq<u8>) -> Option<Seq<u8>>;

/// The compressed encoding of `scalar` times the generator of the curve.
pub uninterp spec fn ec_mul_generator(suite: CipherSuite, scalar: Seq<u8>) -> Option<Seq<u8>>;

/// The compressed encoding of the sum of the points that `p` and `q` encode;
/// `None` where one of them encodes no point of the curve.
pub uninterp spec fn ec_add(suite: CipherSuite, p: Seq<u8>, q: Seq<u8>) -> Option<Seq<u8>>;

/// The compressed encoding of the inverse of the point that `p` encodes; `None`
/// where `p` encodes no point of the curve.
pub uninterp spec fn ec_invert(suite: CipherSuite, p: Seq<u8>) -> Option<Seq<u8>>;

/// The affine coordinates of the point that `p` encodes, each as a number of
/// `width` bytes; `None` where `p` encodes no point with affine coordinates.
pub uninterp spec fn ec_affine(suite: CipherSuite, p: Seq<u8>, width: nat) -> Option<
    (Seq<u8>, Seq<u8>),
>;

/// `a` shifted right by `n` bits, as a number of `width` bytes; `None` where
/// the provider reports a failure.
pub uninterp spec fn bn_rshift(a: Seq<u8>, n: nat, width: nat) -> Option<Seq<u8>>;

/// `a` modulo `m`, as a number of `width` bytes; `None` where the provider
/// reports a failure.
pub uninterp spec fn bn_nnmod(a: Seq<u8>, m: Seq<u8>, width: nat) -> Option<Seq<u8>>;

/// `a` times `b` modulo `m`, as a number of `width` bytes; `None` where the
/// provider reports a failure.
pub uninterp spec fn bn_mod_mul(a: Seq<u8>, b: Seq<u8>, m: Seq<u8>, width: nat) -> Option<Seq<u8>>;

/// `a` plus `b` modulo `m`, as a number of `width` bytes; `None` where the
/// provider reports a failure.
pub uninterp spec fn bn_mod_add(a: Seq<u8>, b: Seq<u8>, m: Seq<u8>, width: nat) -> Option<Seq<u8>>;

/// An optional byte vector as an optional byte string.
pub open spec fn opt_view(r: Option<Vec<u8>>) -> Option<Seq<u8>> {
    match r {
        Some(v) => Some(v@),
        None => None,
    }
}

/// An optional pair of byte vectors as an optional pair of byte strings.
pub open spec fn opt_pair_view(r: Option<(Vec<u8>, Vec<u8>)>) -> Option<(Seq<u8>, Seq<u8>)> {
    match r {
        Some((x, y)) => Some((x@, y@)),
        None => None,
    }
}

/// Calls `openssl::sha::sha256`. The result is the digest of `data`, which the
/// outside function returns as an array of 32 bytes.
#[verifier::external_body]
pub(crate) fn digest(data: &[u8]) -> (r: Vec<u8>)
    ensures
        r@ == sha256(data@),
        r@.len() == 32,
{
    openssl::sha::sha256(data).to_vec()
}

/// Calls `hmac_sha256::HMAC::mac`. The result is the authentication code of
/// `data` under `key`, which the outside function returns as an array of 32
/// bytes.
#[verifier::external_body]
pub(crate) fn authenticate(key: &[u8], data: &[u8]) -> (r: Vec<u8>)
    ensures
        r@ == hmac_sha256(key@, data@),
        r@.len() == 32,
{
    hmac_sha256::HMAC::mac(data, key).to_vec()
}

/// Calls `EcPoint::from_bytes` on the curve of `suite` and encodes the point in
/// compressed form again. Bytes that OpenSSL does not accept as a point of the
/// curve give `None`.
#[verifier::external_body]
pub(crate) fn point_decode(suite: CipherSuite, bytes: &[u8]) -> (r: Option<Vec<u8>>)
    ensures
        opt_view(r) == ec_decode(suite, bytes@),
{
    let nid = match suite {
        CipherSuite::P256_SHA256_TAI => Nid::X9_62_PRIME256V1,
        CipherSuite::SECP256K1_SHA256_TAI => Nid::SECP256K1,
        CipherSuite::K163_SHA256_TAI => Nid::SECT163K1,
    };
    let group = EcGroup::from_curve_name(nid).ok()?;
    let mut ctx = BigNumContext::new().ok()?;
    let p = EcPoint::from_bytes(&group, bytes, &mut ctx).ok()?;
    p.to_bytes(&group, PointConversionForm::COMPRESSED, &mut ctx).ok()
}

/// Calls `EcPointRef::mul2` on the curve of `suite`: the point that `point`
/// encodes, multiplied by the number that `scalar` encodes, in compressed form.
#[verifier::external_body]
pub(crate) fn point_mul(suite: CipherSuite, point: &[u8], scalar: &[u8]) -> (r: Option<Vec<u8>>)
    requires
        scalar@.len() <= MAX_NUMBER_LEN,
    ensures
        opt_view(r) == ec_mul(suite, point@, scalar@),
{
    let nid = match suite {
        CipherSuite::P256_SHA256_TAI => Nid::X9_62_PRIME256V1,
        CipherSuite::SECP256K1_SHA256_TAI => Nid::SECP256K1,
        CipherSuite::K163_SHA256_TAI => Nid::SECT163K1,
    };
    let group = EcGroup::from_curve_name(nid).ok()?;
    let mut ctx = BigNumContext::new().ok()?;
    let q = EcPoint::from_bytes(&group, point, &mut ctx).ok()?;
    let m = BigNum::from_slice(scalar).ok()?;
    let mut out = EcPoint::new(&group).ok()?;
    out.mul2(&group, &q, &m, &mut ctx).ok()?;
    out.to_bytes(&group, PointConversionForm::COMPRESSED, &mut ctx).ok()
}

/// Calls `EcPointRef::mul_generator2` on the curve of `suite`: the generator
/// multiplied by the number that `scalar` encodes, in compressed form.
#[verifier::external_body]
pub(crate) fn point_mul_generator(suite: CipherSuite, scalar: &[u8]) -> (r: Option<Vec<u8>>)
    requires
        scalar@.len() <= MAX_NUMBER_LEN,
    ensures
        opt_view(r) == ec_mul_generator(suite, scalar@),
{
    let nid = match suite {
        CipherSuite::P256_SHA256_TAI => Nid::X9_62_PRIME256V1,
        CipherSuite::SECP256K1_SHA256_TAI => Nid::SECP256K1,
        CipherSuite::K163_SHA256_TAI => Nid::SECT163K1,
    };
    let group = EcGroup::from_curve_name(nid).ok()?;
    let mut ctx = BigNumContext::new().ok()?;
    let n = BigNum::from_slice(scalar).ok()?;
    let mut out = EcPoint::new(&group).ok()?;
    out.mul_generator2(&group, &n, &mut ctx).ok()?;
    out.to_bytes(&group, PointConversionForm::COMPRESSED, &mut ctx).ok()
}

/// Calls `EcPointRef::add` on the curve of `suite`: the sum of the points that
/// `p` and `q` encode, in compressed form.
#[verifier::external_body]
pub(crate) fn point_add(suite: CipherSuite, p: &[u8], q: &[u8]) -> (r: Option<Vec<u8>>)
    ensures
        opt_view(r) == ec_add(suite, p@, q@),
{
    let nid = match suite {
        CipherSuite::P256_SHA256_TAI => Nid::X9_62_PRIME256V1,
        CipherSuite::SECP256K1_SHA256_TAI => Nid::SECP256K1,
        CipherSuite::K163_SHA256_TAI => Nid::SECT163K1,
    };
    let group = EcGroup::from_curve_name(nid).ok()?;
    let mut ctx = BigNumContext::new().ok()?;
    let a = EcPoint::from_bytes(&group, p, &mut ctx).ok()?;
    let b = EcPoint::from_bytes(&group, q, &mut ctx).ok()?;
    let mut out = EcPoint::new(&group).ok()?;
    out.add(&group, &a, &b, &mut ctx).ok()?;
    out.to_bytes(&group, PointConversionForm::COMPRESSED, &mut ctx).ok()
}

/// Calls `EcPointRef::invert2` on the curve of `suite`: the inverse of the
/// point that `p` encodes, in compressed form.
#[verifier::external_body]
pub(crate) fn point_invert(suite: CipherSuite, p: &[u8]) -> (r: Option<Vec<u8>>)
    ensures
        opt_view(r) == ec_invert(suite, p@),
{
    let nid = match suite {
        CipherSuite::P256_SHA256_TAI => Nid::X9_62_PRIME256V1,
        CipherSuite::SECP256K1_SHA256_TAI => Nid::SECP256K1,
        CipherSuite::K163_SHA256_TAI => Nid::SECT163K1,
    };
    let group = EcGroup::from_curve_name(nid).ok()?;
    let mut ctx = BigNumContext::new().ok()?;
    let mut a = EcPoint::from_bytes(&group, p, &mut ctx).ok()?;
    a.invert2(&group, &mut ctx).ok()?;
    a.to_bytes(&group, PointConversionForm::COMPRESSED, &mut ctx).ok()
}

/// Calls `EcPointRef::affine_coordinates` on the curve of `suite` and writes
/// each coordinate with `BigNumRef::to_vec_padded`, which pads to `width` bytes
/// and fails where the number needs more.
#[verifier::external_body]
pub(crate) fn point_affine(suite: CipherSuite, p: &[u8], width: usize) -> (r: Option<
    (Vec<u8>, Vec<u8>),
>)
    requires
        width <= MAX_NUMBER_LEN,
    ensures
        opt_pair_view(r) == ec_affine(suite, p@, width as nat),
        r matches Some((x, y)) ==> x@.len() == width && y@.len() == width,
{
    let nid = match suite {
        CipherSuite::P256_SHA256_TAI => Nid::X9_62_PRIME256V1,
        CipherSuite::SECP256K1_SHA256_TAI => Nid::SECP256K1,
        CipherSuite::K163_SHA256_TAI => Nid::SECT163K1,
    };
    let group = EcGroup::from_curve_name(nid).ok()?;
    let mut ctx = BigNumContext::new().ok()?;
    let a = EcPoint::from_bytes(&group, p, &mut ctx).ok()?;
    let mut x = BigNum::new().ok()?;
    let mut y = BigNum::new().ok()?;
    a.affine_coordinates(&group, &mut x, &mut y, &mut ctx).ok()?;
    Some((x.to_vec_padded(width as i32).ok()?, y.to_vec_padded(width as i32).ok()?))
}

/// Calls `BigNumRef::rshift`, which places `a / 2^n` in its receiver, and
/// writes the result with `BigNumRef::to_vec_padded`.
#[verifier::external_body]
pub(crate) fn number_rshift(a: &[u8], n: usize, width: usize) -> (r: Option<Vec<u8>>)
    requires
        a@.len() <= MAX_NUMBER_LEN,
        n <= MAX_NUMBER_LEN,
        width <= MAX_NUMBER_LEN,
    ensures
        opt_view(r) == bn_rshift(a@, n as nat, width as nat),
        r matches Some(v) ==> v@.len() == width && be_value(v@) == be_value(a@) / pow2(n as nat),
{
    let x = BigNum::from_slice(a).ok()?;
    let mut out = BigNum::new().ok()?;
    out.rshift(&x, n as i32).ok()?;
    out.to_vec_padded(width as i32).ok()
}

/// Calls `BigNumRef::nnmod`, which places the non-negative `a mod m` in its
/// receiver, and writes the result with `BigNumRef::to_vec_padded`.
#[verifier::external_body]
pub(crate) fn number_mod(a: &[u8], m: &[u8], width: usize) -> (r: Option<Vec<u8>>)
    requires
        a@.len() <= MAX_NUMBER_LEN,
        m@.len() <= MAX_NUMBER_LEN,
        width <= MAX_NUMBER_LEN,
        be_value(m@) > 0,
    ensures
        opt_view(r) == bn_nnmod(a@, m@, width as nat),
        r matches Some(v) ==> v@.len() == width && be_value(v@) == be_value(a@) % be_value(m@),
{
    let x = BigNum::from_slice(a).ok()?;
    let y = BigNum::from_slice(m).ok()?;
    let mut ctx = BigNumContext::new().ok()?;
    let mut out = BigNum::new().ok()?;
    out.nnmod(&x, &y, &mut ctx).ok()?;
    out.to_vec_padded(width as i32).ok()
}

/// Calls `BigNumRef::mod_mul`, which places `(a * b) mod m` in its receiver,
/// and writes the result with `BigNumRef::to_vec_padded`.
#[verifier::external_body]
pub(crate) fn number_mod_mul(a: &[u8], b: &[u8], m: &[u8], width: usize) -> (r: Option<Vec<u8>>)
    requires
        a@.len() <= MAX_NUMBER_LEN,
        b@.len() <= MAX_NUMBER_LEN,
        m@.len() <= MAX_NUMBER_LEN,
        width <= MAX_NUMBER_LEN,
        be_value(m@) > 0,
    ensures
        opt_view(r) == bn_mod_mul(a@, b@, m@, width as nat),
        r matches Some(v) ==> v@.len() == width && be_value(v@) == (be_value(a@) * be_value(b@))
            % be_value(m@),
{
    let x = BigNum::from_slice(a).ok()?;
    let y = BigNum::from_slice(b).ok()?;
    let z = BigNum::from_slice(m).ok()?;
    let mut ctx = BigNumContext::new().ok()?;
    let mut out = BigNum::new().ok()?;
    out.mod_mul(&x, &y, &z, &mut ctx).ok()?;
    out.to_vec_padded(width as i32).ok()
}

/// Calls `BigNumRef::mod_add`, which places `(a + b) mod m` in its receiver,
/// and writes the result with `BigNumRef::to_vec_padded`.
#[verifier::external_body]
pub(crate) fn number_mod_add(a: &[u8], b: &[u8], m: &[u8], width: usize) -> (r: Option<Vec<u8>>)
    requires
        a@.len() <= MAX_NUMBER_LEN,
        b@.len() <= MAX_NUMBER_LEN,
        m@.len() <= MAX_NUMBER_LEN,
        width <= MAX_NUMBER_LEN,
        be_value(m@) > 0,
    ensures
        opt_view(r) == bn_mod_add(a@, b@, m@, width as nat),
        r matches Some(v) ==> v@.len() == width && be_value(v@) == (be_value(a@) + be_value(b@))
            % be_value(m@),
{
    let x = BigNum::from_slice(a).ok()?;
    let y = BigNum::from_slice(b).ok()?;
    let z = BigNum::from_slice(m).ok()?;
    let mut ctx = BigNumContext::new().ok()?;
    let mut out = BigNum::new().ok()?;
    out.mod_add(&x, &y, &z, &mut ctx).ok()?;
    out.to_vec_padded(width as i32).ok()
}

} // verus!
