use vrf::bits::leading_bits;
use vrf::bytes::{
    append, copy_range, in_range, is_zero, left_pad, less_than, prefix, same_bytes,
};
use vrf::challenge::{challenge, challenge_input, truncate};
use vrf::codec::Proof;
use vrf::ecvrf::{challenge_matches, judge, point_sub, response, u_point, v_terms};
use vrf::error::Error;
use vrf::hash_to_curve::{attempt, attempt_input, candidate, hash_to_curve};
use vrf::nonce::{bits2int, bits2octets, generate_nonce, initial, rekey, seed, search};
use vrf::point::{checked_point, clear_cofactor, is_identity, subgroup_point, valid_point};
use vrf::suite::CipherSuite;

const P256: CipherSuite = CipherSuite::P256_SHA256_TAI;
const SECP: CipherSuite = CipherSuite::SECP256K1_SHA256_TAI;
const K163: CipherSuite = CipherSuite::K163_SHA256_TAI;

fn unhex(s: &str) -> Vec<u8> {
    let b = s.as_bytes();
    let mut out = Vec::new();
    let mut i = 0;
    while i + 1 < b.len() {
        let hi = (b[i] as char).to_digit(16).unwrap() as u8;
        let lo = (b[i + 1] as char).to_digit(16).unwrap() as u8;
        out.push(hi * 16 + lo);
        i += 2;
    }
    out
}

#[test]
fn suite_constants() {
    assert_eq!(P256.suite_string(), 0x01);
    assert_eq!(SECP.suite_string(), 0xFE);
    assert_eq!(K163.suite_string(), 0xFF);
    assert_eq!((P256.cofactor(), SECP.cofactor(), K163.cofactor()), (1, 1, 2));
    for suite in [P256, SECP] {
        assert_eq!(suite.order_bits(), 256);
        assert_eq!(suite.field_bits(), 256);
        assert_eq!(suite.challenge_bits(), 128);
        assert_eq!(suite.field_width(), 32);
        assert_eq!(suite.point_width(), 33);
        assert_eq!(suite.scalar_width(), 32);
        assert_eq!(suite.challenge_len(), 16);
        assert_eq!(suite.challenge_width(), 16);
        assert_eq!(suite.proof_width(), 81);
    }
    assert_eq!(K163.order_bits(), 163);
    assert_eq!(K163.field_bits(), 163);
    assert_eq!(K163.challenge_bits(), 82);
    assert_eq!(K163.field_width(), 21);
    assert_eq!(K163.point_width(), 22);
    assert_eq!(K163.scalar_width(), 21);
    assert_eq!(K163.challenge_len(), 10);
    assert_eq!(K163.challenge_width(), 11);
    assert_eq!(K163.proof_width(), 54);
}

#[test]
fn suite_orders() {
    assert_eq!(
        P256.order(),
        unhex("ffffffff00000000ffffffffffffffffbce6faada7179e84f3b9cac2fc632551")
    );
    assert_eq!(
        SECP.order(),
        unhex("fffffffffffffffffffffffffffffffebaaedce6af48a03bbfd25e8cd0364141")
    );
    assert_eq!(K163.order(), unhex("04000000000000000000020108a2e0cc0d99f8a5ef"));
    // The order takes the generator to the identity, and no smaller power of two times it does.
    for suite in [P256, SECP, K163] {
        let mut one = vec![0u8; suite.scalar_width()];
        *one.last_mut().unwrap() = 1;
        let generator = vrf::ecvrf::derive_public_key(suite, &one).unwrap();
        assert!(valid_point(suite, &generator));
    }
}

#[test]
fn bytes_left_pad() {
    assert_eq!(left_pad(&[1, 2], 4), vec![0, 0, 1, 2]);
    assert_eq!(left_pad(&[1, 2], 2), vec![1, 2]);
    assert_eq!(left_pad(&[1, 2], 1), vec![1, 2]);
    assert_eq!(left_pad(&[], 3), vec![0, 0, 0]);
    assert_eq!(left_pad(&[], 0), Vec::<u8>::new());
}

#[test]
fn bytes_prefix_and_ranges() {
    assert_eq!(prefix(&[1, 2, 3], 2), vec![1, 2]);
    assert_eq!(prefix(&[1, 2, 3], 3), vec![1, 2, 3]);
    assert_eq!(prefix(&[1, 2, 3], 9), vec![1, 2, 3]);
    assert_eq!(prefix(&[1, 2, 3], 0), Vec::<u8>::new());
    assert_eq!(copy_range(&[1, 2, 3, 4], 1, 3), vec![2, 3]);
    assert_eq!(copy_range(&[1, 2, 3, 4], 4, 4), Vec::<u8>::new());
    let mut out = vec![9];
    append(&mut out, &[8, 7]);
    append(&mut out, &[]);
    assert_eq!(out, vec![9, 8, 7]);
}

#[test]
fn bytes_comparisons() {
    assert!(is_zero(&[]));
    assert!(is_zero(&[0, 0, 0]));
    assert!(!is_zero(&[0, 1, 0]));
    assert!(same_bytes(&[1, 2], &[1, 2]));
    assert!(!same_bytes(&[1, 2], &[1, 3]));
    assert!(!same_bytes(&[1, 2], &[0, 1, 2]));
    assert!(same_bytes(&[], &[]));
    assert!(less_than(&[1, 255], &[2, 0]));
    assert!(!less_than(&[2, 0], &[1, 255]));
    assert!(!less_than(&[2, 0], &[2, 0]));
    assert!(less_than(&[0, 0, 5], &[6]));
    assert!(less_than(&[255], &[1, 0]));
    assert!(!less_than(&[1, 0], &[255]));
    assert!(!less_than(&[], &[0, 0]));
    assert!(less_than(&[], &[0, 1]));
}

#[test]
fn bytes_in_range() {
    assert!(in_range(&[0, 1], &[1, 0]));
    assert!(in_range(&[0, 255], &[1, 0]));
    assert!(!in_range(&[0, 0], &[1, 0]));
    assert!(!in_range(&[1, 0], &[1, 0]));
    assert!(!in_range(&[1, 1], &[1, 0]));
    // of another width
    assert!(!in_range(&[1], &[1, 0]));
    assert!(!in_range(&[0, 0, 1], &[1, 0]));
}

#[test]
fn bits_leading() {
    // nothing to shift
    assert_eq!(leading_bits(&[0xab, 0xcd], 16, 2), Some(vec![0xab, 0xcd]));
    assert_eq!(leading_bits(&[0xab, 0xcd], 20, 3), Some(vec![0x00, 0xab, 0xcd]));
    // the leading 12 bits, the leading 3 bits
    assert_eq!(leading_bits(&[0xab, 0xcd], 12, 2), Some(vec![0x0a, 0xbc]));
    assert_eq!(leading_bits(&[0xab, 0xcd], 3, 1), Some(vec![0x05]));
    assert_eq!(leading_bits(&[0xab, 0xcd], 0, 1), Some(vec![0x00]));
    // a width that the number does not fit
    assert_eq!(leading_bits(&[0xab, 0xcd], 12, 1), None);
}

#[test]
fn nonce_bits2int() {
    let ones = [0xffu8; 32];
    assert_eq!(bits2int(P256, &ones), Some(ones.to_vec()));
    assert_eq!(
        bits2int(K163, &ones),
        Some(unhex("07ffffffffffffffffffffffffffffffffffffffff"))
    );
    assert_eq!(bits2int(K163, &[0x80]), Some(left_pad(&[0x80], 21)));
    assert_eq!(bits2int(P256, &[]), Some(vec![0u8; 32]));
}

#[test]
fn nonce_bits2octets() {
    let ones = [0xffu8; 32];
    assert_eq!(
        bits2octets(P256, &ones),
        Some(unhex("00000000ffffffff00000000000000004319055258e8617b0c46353d039cdaae"))
    );
    assert_eq!(
        bits2octets(K163, &ones),
        Some(unhex("03fffffffffffffffffffdfef75d1f33f266075a10"))
    );
    assert_eq!(bits2octets(SECP, &[5]), Some(left_pad(&[5], 32)));
}

#[test]
fn nonce_generator() {
    let start = initial();
    assert_eq!(start.key, vec![0u8; 32]);
    assert_eq!(start.value, vec![1u8; 32]);
    let next = rekey(&start, 0x00, b"m");
    assert_eq!(next.key, unhex("5b304d98c195abaf87b4a8bf84388b6aeec34c15465883672493a073aebe4124"));
    assert_eq!(
        next.value,
        unhex("96adb54e89468f27e30bfa3a47eb65a87458a83a113856346f852c478dd1c241")
    );
    let seeded = seed(b"x", b"h");
    assert_eq!(
        seeded.key,
        unhex("ab2ea744150288cc270bd64e7ce9cd6de076b44d9b09d2fac0cff4a2625732b9")
    );
    assert_eq!(
        seeded.value,
        unhex("8b9215c221b795db22a1609de9d268ed20ddd214f97bbd4c7a2735368d281a13")
    );
    // The first candidate is the next value of the generator.
    assert_eq!(
        search(P256, seeded, 1),
        Ok(unhex("1c30be41221bb61193358ac1ff9260389152836d34eefccf593e022867ec1272"))
    );
}

#[test]
fn nonce_is_a_valid_scalar() {
    for suite in [P256, SECP, K163] {
        let secret = vec![0x01u8; suite.scalar_width()];
        for message in [&b"a"[..], &b"b"[..], &b""[..]] {
            let digest = openssl::sha::sha256(message);
            let k = generate_nonce(suite, &secret, &digest).unwrap();
            assert!(in_range(&k, &suite.order()));
            assert_eq!(generate_nonce(suite, &secret, &digest), Ok(k));
        }
        let a = generate_nonce(suite, &secret, &openssl::sha::sha256(b"a")).unwrap();
        let b = generate_nonce(suite, &secret, &openssl::sha::sha256(b"b")).unwrap();
        assert_ne!(a, b);
    }
}

#[test]
fn hash_to_curve_inputs() {
    assert_eq!(attempt_input(SECP, b"PK", b"msg", 9), unhex("fe01504b6d736709"));
    assert_eq!(attempt_input(P256, b"", b"", 0), vec![0x01, 0x01, 0x00]);
    let digest: Vec<u8> = (0u8..32).collect();
    let mut whole = vec![0x02];
    whole.extend_from_slice(&digest);
    assert_eq!(candidate(P256, &digest), Some(whole));
    assert_eq!(
        candidate(K163, &digest),
        Some(unhex("02000008101820283038404850586068707880889098"))
    );
}

#[test]
fn hash_to_curve_takes_the_first_counter() {
    for suite in [P256, SECP, K163] {
        let pk = vec![0x02u8; suite.point_width()];
        for message in [&b"one"[..], &b"two"[..], &b"three"[..]] {
            let h = hash_to_curve(suite, &pk, message).unwrap();
            assert!(valid_point(suite, &h));
            let mut counter = 0u8;
            while attempt(suite, &pk, message, counter).is_none() {
                counter += 1;
            }
            assert_eq!(attempt(suite, &pk, message, counter), Some(h.clone()));
            assert_eq!(hash_to_curve(suite, &pk, message), Ok(h));
        }
    }
}

#[test]
fn points_identity_and_width() {
    assert!(is_identity(&[0]));
    assert!(!is_identity(&[]));
    assert!(!is_identity(&[1]));
    assert!(!is_identity(&[0, 0]));
    assert_eq!(checked_point(P256, Some(vec![2u8; 33])), Some(vec![2u8; 33]));
    assert_eq!(checked_point(P256, Some(vec![0u8])), None);
    assert_eq!(checked_point(K163, Some(vec![2u8; 33])), None);
    assert_eq!(checked_point(K163, Some(vec![2u8; 22])), Some(vec![2u8; 22]));
    assert_eq!(checked_point(P256, None), None);
}

#[test]
fn points_of_the_subgroup_are_kept() {
    let g = unhex("0279be667ef9dcbbac55a06295ce870b07029bfcdb2dce28d959f2815b16f81798");
    assert_eq!(subgroup_point(SECP, Some(g.clone())), Some(g));
    assert_eq!(subgroup_point(SECP, Some(vec![0])), None);
    assert_eq!(subgroup_point(SECP, Some(vec![0x02, 0x01])), None);
    assert_eq!(subgroup_point(SECP, None), None);
    let mut low = vec![0u8; 22];
    low[0] = 0x02;
    assert_eq!(subgroup_point(K163, Some(low)), None);
}

#[test]
fn points_clear_cofactor() {
    let g = unhex("0279be667ef9dcbbac55a06295ce870b07029bfcdb2dce28d959f2815b16f81798");
    assert_eq!(clear_cofactor(SECP, &g), Some(g.clone()));
    // The uncompressed form of the same point is decoded and compressed.
    let mut uncompressed = vec![0x04];
    uncompressed.extend_from_slice(&g[1..]);
    uncompressed
        .extend(unhex("483ada7726a3c4655da4fbfc0e1108a8fd17b448a68554199c47d08ffb10d4b8"));
    assert_eq!(clear_cofactor(SECP, &uncompressed), Some(g.clone()));
    // no point of the curve; the identity
    assert_eq!(clear_cofactor(SECP, &[0x02, 0x01]), None);
    assert_eq!(clear_cofactor(SECP, &[0x00]), None);
    // On K-163 the point is doubled.
    let mut one = vec![0u8; 21];
    one[20] = 1;
    let mut two = vec![0u8; 21];
    two[20] = 2;
    let b = vrf::ecvrf::derive_public_key(K163, &one).unwrap();
    let b2 = vrf::ecvrf::derive_public_key(K163, &two).unwrap();
    assert_eq!(clear_cofactor(K163, &b), Some(b2));
    // The point of order 2 is taken to the identity.
    let mut low = vec![0u8; 22];
    low[0] = 0x02;
    assert_eq!(clear_cofactor(K163, &low), None);
}

#[test]
fn points_subtract() {
    let mut scalars = Vec::new();
    for n in [1u8, 2, 3] {
        let mut x = vec![0u8; 32];
        x[31] = n;
        scalars.push(vrf::ecvrf::derive_public_key(P256, &x).unwrap());
    }
    // 3B - 2B = B, 3B - B = 2B, B - B is the identity
    assert_eq!(point_sub(P256, &scalars[2], &scalars[1]), Some(scalars[0].clone()));
    assert_eq!(point_sub(P256, &scalars[2], &scalars[0]), Some(scalars[1].clone()));
    assert_eq!(point_sub(P256, &scalars[0], &scalars[0]), Some(vec![0]));
    assert_eq!(point_sub(P256, &scalars[0], &[0x02, 0x01]), None);
    // s * B - c * Y with Y = 2B, c = 1, s = 3 is B
    let mut c = vec![0u8; 16];
    c[15] = 1;
    let mut s = vec![0u8; 32];
    s[31] = 3;
    assert_eq!(u_point(P256, &scalars[1], &c, &s), Some(scalars[0].clone()));
    // s * H and c * Gamma with H = B, Gamma = 2B
    assert_eq!(
        v_terms(P256, &scalars[0], &scalars[1], &c, &s),
        Some((scalars[2].clone(), scalars[1].clone()))
    );
}

#[test]
fn response_is_reduced() {
    let small = |n: u8| left_pad(&[n], 32);
    // 5 + 3 * 4
    assert_eq!(response(P256, &small(5), &small(3), &small(4)), Some(small(17)));
    // (q - 1) + 1 * 2 = 1 modulo q
    let mut largest = P256.order();
    *largest.last_mut().unwrap() -= 1;
    assert_eq!(response(P256, &largest, &small(1), &small(2)), Some(small(1)));
    // (q - 1) * (q - 1) = 1 modulo q, plus 0
    assert_eq!(response(P256, &small(0), &largest, &largest), Some(small(1)));
    // the width is that of the suite
    assert_eq!(response(K163, &[5], &[3], &[4]), Some(left_pad(&[17], 21)));
}

#[test]
fn challenge_hashes_the_points_in_order() {
    assert_eq!(challenge_input(P256, b"HH", b"GG", b"UU", b"VV"), b"\x01\x02HHGGUUVV".to_vec());
    assert_eq!(
        challenge(P256, b"HH", b"GG", b"UU", b"VV"),
        unhex("e2e27c853bb65e8513dcbd2cafbc624b")
    );
    assert_eq!(challenge(K163, b"HH", b"GG", b"UU", b"VV"), unhex("386fd78f82ed07aaa8d6"));
    assert_ne!(
        challenge(P256, b"GG", b"HH", b"UU", b"VV"),
        challenge(P256, b"HH", b"GG", b"UU", b"VV")
    );
    assert_eq!(truncate(P256, &[7u8; 32]), vec![7u8; 16]);
    assert_eq!(truncate(K163, &[7u8; 32]), vec![7u8; 10]);
    assert_eq!(truncate(K163, &[7u8; 4]), vec![7u8; 4]);
}

#[test]
fn challenge_comparison() {
    assert!(challenge_matches(P256, &[3u8; 16], &[3u8; 16]));
    assert!(!challenge_matches(P256, &[3u8; 16], &[4u8; 16]));
    let mut carried = vec![0u8];
    carried.extend_from_slice(&[3u8; 10]);
    assert!(challenge_matches(K163, &carried, &[3u8; 10]));
    carried[0] = 1;
    assert!(!challenge_matches(K163, &carried, &[3u8; 10]));
    assert!(!challenge_matches(K163, &[3u8; 10], &[3u8; 10]));
}

#[test]
fn judge_decides_by_the_challenge() {
    let gamma = unhex("029bdca4cc39e57d97e2f42f88bcf0ecb1120fb67eb408a856050dbfbcbf57c524");
    let p = Proof { gamma, c: vec![3u8; 16], s: vec![0u8; 32] };
    assert_eq!(
        judge(P256, &p, &[3u8; 16]),
        Ok(unhex("59ca3801ad3e981a88e36880a3aee1df38a0472d5be52d6e39663ea0314e594c"))
    );
    assert_eq!(judge(P256, &p, &[4u8; 16]), Err(Error::VerificationFailed));
    let broken = Proof { gamma: vec![0x02, 0x01], c: vec![3u8; 16], s: vec![0u8; 32] };
    assert_eq!(judge(P256, &broken, &[3u8; 16]), Err(Error::InvalidProofEncoding));
    assert_eq!(judge(P256, &broken, &[4u8; 16]), Err(Error::VerificationFailed));
}

#[test]
fn codec_split_and_encode() {
    let pi: Vec<u8> = (0u8..81).collect();
    let p = Proof::split(P256, &pi).unwrap();
    assert_eq!(p.gamma, pi[..33].to_vec());
    assert_eq!(p.c, pi[33..49].to_vec());
    assert_eq!(p.s, pi[49..].to_vec());
    assert_eq!(p.encode(), pi);
    let pik: Vec<u8> = (0u8..54).collect();
    let p = Proof::split(K163, &pik).unwrap();
    assert_eq!(p.gamma, pik[..22].to_vec());
    assert_eq!(p.c, pik[22..33].to_vec());
    assert_eq!(p.s, pik[33..].to_vec());
    assert_eq!(p.encode(), pik);
    assert_eq!(Proof::split(P256, &pik).unwrap_err(), Error::InvalidProofLength);
    assert_eq!(Proof::split(K163, &pi).unwrap_err(), Error::InvalidProofLength);
    assert_eq!(Proof::split(P256, &[]).unwrap_err(), Error::InvalidProofLength);
    // Splitting looks at the length alone, decoding at the content too.
    assert_eq!(Proof::decode(P256, &pi).unwrap_err(), Error::InvalidProofEncoding);
}

#[test]
fn codec_decode_checks_the_parts() {
    let gamma = unhex("029bdca4cc39e57d97e2f42f88bcf0ecb1120fb67eb408a856050dbfbcbf57c524");
    let mut largest = P256.order();
    *largest.last_mut().unwrap() -= 1;
    let good = Proof { gamma: gamma.clone(), c: vec![0xffu8; 16], s: largest };
    let decoded = Proof::decode(P256, &good.encode()).unwrap();
    assert_eq!(decoded.gamma, good.gamma);
    assert_eq!(decoded.c, good.c);
    assert_eq!(decoded.s, good.s);
    // a response of zero is below the order
    let zero = Proof { gamma: gamma.clone(), c: vec![0u8; 16], s: vec![0u8; 32] };
    assert!(Proof::decode(P256, &zero.encode()).is_ok());
    let high = Proof { gamma, c: vec![0u8; 16], s: P256.order() };
    assert_eq!(Proof::decode(P256, &high.encode()).unwrap_err(), Error::InvalidProofEncoding);
    // an x coordinate that belongs to no point of the curve
    let mut off = vec![0x02];
    off.extend_from_slice(&[0xffu8; 32]);
    let bad = Proof { gamma: off, c: vec![0u8; 16], s: vec![0u8; 32] };
    assert_eq!(Proof::decode(P256, &bad.encode()).unwrap_err(), Error::InvalidProofEncoding);
}
