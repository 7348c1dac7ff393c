use vrf::ecvrf::{
    derive_public_key, gamma_to_hash, proof_to_hash, prove_with_nonce, response, u_point, v_point,
    verify,
};
use vrf::challenge::challenge;
use vrf::hash_to_curve::hash_to_curve;
use vrf::nonce::generate_nonce;
use vrf::suite::CipherSuite;

const SUITE: CipherSuite = CipherSuite::P256_SHA256_TAI;
const SECRET: &str = "c9afa9d845ba75166b5c215767b1d6934e50c3db36e89b127b8a622b120f6721";
const PUBLIC: &str = "0360fed4ba255a9d31c961eb74c6356d68c049b8923b61fa6ce669622e60f29fb6";
const H: &str = "02e2e1ab1b9f5a8a68fa4aad597e7493095648d3473b213bba120fe42d1a595f3e";
const K: &str = "b7de5757b28c349da738409dfba70763ace31a6b15be8216991715fbc833e5fa";
const GAMMA: &str = "029bdca4cc39e57d97e2f42f88bcf0ecb1120fb67eb408a856050dbfbcbf57c524";
const C: &str = "347fc46ccd87843ec0a9fdc090a407c6";
const S: &str = "fbae8ac1480e240c58854897eabbc3a7bb61b201059f89186e7175af796d65e7";
const BETA: &str = "59ca3801ad3e981a88e36880a3aee1df38a0472d5be52d6e39663ea0314e594c";

fn unhex(s: &str) -> Vec<u8> {
    let b = s.as_bytes();
    let mut out = Vec::new();
    let mut i = 0;
    while i + 1 < b.len() {
        let hi = (b[i] as char).to_digit(16).unwrap() as u8;
        let lo = (b[i + 1] as char).to_digit(16).unwrap() as u8;
        out.push(hi * 16 + lo);
        i += 2;
    }
    out
}

fn proof_bytes() -> Vec<u8> {
    let mut pi = unhex(GAMMA);
    pi.extend(unhex(C));
    pi.extend(unhex(S));
    pi
}

#[test]
fn p256_sample_public_key() {
    assert_eq!(derive_public_key(SUITE, &unhex(SECRET)), Ok(unhex(PUBLIC)));
}

#[test]
fn p256_sample_hash_to_curve() {
    assert_eq!(hash_to_curve(SUITE, &unhex(PUBLIC), b"sample"), Ok(unhex(H)));
}

#[test]
fn p256_sample_nonce() {
    let digest = openssl::sha::sha256(&unhex(H));
    assert_eq!(generate_nonce(SUITE, &unhex(SECRET), &digest), Ok(unhex(K)));
}

#[test]
fn p256_sample_response() {
    assert_eq!(response(SUITE, &unhex(K), &unhex(C), &unhex(SECRET)), Some(unhex(S)));
}

#[test]
fn p256_sample_proof_from_nonce() {
    let pi = prove_with_nonce(SUITE, &unhex(SECRET), &unhex(H), &unhex(GAMMA), &unhex(K));
    assert_eq!(pi, Ok(proof_bytes()));
}

#[test]
fn p256_sample_verification_points() {
    let y = unhex(PUBLIC);
    let (c, s) = (unhex(C), unhex(S));
    let u = u_point(SUITE, &y, &c, &s).unwrap();
    let v = v_point(SUITE, &unhex(H), &unhex(GAMMA), &c, &s).unwrap();
    // U and V are the commitments k * B and k * H of the prover.
    assert_eq!(u, derive_public_key(SUITE, &unhex(K)).unwrap());
    assert_eq!(challenge(SUITE, &unhex(H), &unhex(GAMMA), &u, &v), c);
}

#[test]
fn p256_sample_verify() {
    assert_eq!(verify(SUITE, &unhex(PUBLIC), &proof_bytes(), b"sample"), Ok(unhex(BETA)));
}

#[test]
fn p256_sample_output() {
    assert_eq!(gamma_to_hash(SUITE, &unhex(GAMMA)), Ok(unhex(BETA)));
    assert_eq!(proof_to_hash(SUITE, &proof_bytes()), Ok(unhex(BETA)));
}
