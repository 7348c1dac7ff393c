//! The cipher suites and the constants that each of them fixes.
use vstd::prelude::*;
use crate::bytes::be_value;

verus! {

/// A bundle of curve, hash function and encoding widths that prover and
/// verifier must share. All three suites hash with SHA-256 and map to the curve
/// by try-and-increment; they differ in the curve.
#[allow(non_camel_case_types)]
#[derive(Clone, Copy, Debug, PartialEq, Eq, Structural)]
pub enum CipherSuite {
    /// The NIST P-256 curve.
    P256_SHA256_TAI,
    /// The secp256k1 curve.
    SECP256K1_SHA256_TAI,
    /// The NIST K-163 curve, a binary curve of cofactor 2.
    K163_SHA256_TAI,
}

/// The width of a SHA-256 digest in bytes.
pub const HASH_WIDTH: usize = 32;

/// The order of the prime-order subgroup of P-256, most significant byte first.
pub open spec fn p256_order() -> Seq<u8> {
    seq![
        0xFFu8, 0xFF, 0xFF, 0xFF, 0x00, 0x00, 0x00, 0x00, 0xFF, 0xFF, 0xFF, 0xFF, 0xFF, 0xFF, 0xFF, 0xFF,
        0xBC, 0xE6, 0xFA, 0xAD, 0xA7, 0x17, 0x9E, 0x84, 0xF3, 0xB9, 0xCA, 0xC2, 0xFC, 0x63, 0x25, 0x51,
    ]
}

/// The order of the group of secp256k1, most significant byte first.
pub open spec fn secp256k1_order() -> Seq<u8> {
    seq![
        0xFFu8, 0xFF, 0xFF, 0xFF, 0xFF, 0xFF, 0xFF, 0xFF, 0xFF, 0xFF, 0xFF, 0xFF, 0xFF, 0xFF, 0xFF, 0xFE,
        0xBA, 0xAE, 0xDC, 0xE6, 0xAF, 0x48, 0xA0, 0x3B, 0xBF, 0xD2, 0x5E, 0x8C, 0xD0, 0x36, 0x41, 0x41,
    ]
}

/// The order of the prime-order subgroup of K-163, most significant byte first.
pub open spec fn k163_order() -> Seq<u8> {
    seq![
        0x04u8, 0x00, 0x00, 0x00, 0x00, 0x00, 0x00, 0x00, 0x00, 0x00, 0x02, 0x01, 0x08, 0xA2, 0xE0, 0xCC,
        0x0D, 0x99, 0xF8, 0xA5, 0xEF,
    ]
}

impl CipherSuite {
    /// The byte that separates the hash inputs of one suite from those of another.
    pub open spec fn spec_suite_string(self) -> u8 {
        match self {
            CipherSuite::P256_SHA256_TAI => 0x01,
            CipherSuite::SECP256K1_SHA256_TAI => 0xFE,
            CipherSuite::K163_SHA256_TAI => 0xFF,
        }
    }

    /// The number of points of the curve divided by the order of the subgroup.
    pub open spec fn spec_cofactor(self) -> u8 {
        match self {
            CipherSuite::K163_SHA256_TAI => 2,
            _ => 1,
        }
    }

    /// The length of the group order in bits.
    pub open spec fn spec_order_bits(self) -> usize {
        match self {
            CipherSuite::K163_SHA256_TAI => 163,
            _ => 256,
        }
    }

    /// The length of a field element in bits.
    pub open spec fn spec_field_bits(self) -> usize {
        match self {
            CipherSuite::K163_SHA256_TAI => 163,
            _ => 256,
        }
    }

    /// The length of a challenge in bits: half the length of a field element,
    /// rounded up.
    pub open spec fn spec_challenge_bits(self) -> usize {
        ((self.spec_field_bits() + 1) / 2) as usize
    }

    /// The width of a field element in bytes.
    pub open spec fn spec_field_width(self) -> usize {
        ((self.spec_field_bits() + 7) / 8) as usize
    }

    /// The width of a compressed point: a sign byte and a field element.
    pub open spec fn spec_point_width(self) -> usize {
        (self.spec_field_width() + 1) as usize
    }

    /// The width of a scalar, and of a secret key, in bytes.
    pub open spec fn spec_scalar_width(self) -> usize {
        ((self.spec_order_bits() + 7) / 8) as usize
    }

    /// The number of leading bytes of a digest that make up a challenge.
    pub open spec fn spec_challenge_len(self) -> usize {
        (self.spec_challenge_bits() / 8) as usize
    }

    /// The width of the challenge inside a proof.
    pub open spec fn spec_challenge_width(self) -> usize {
        ((self.spec_challenge_bits() + 7) / 8) as usize
    }

    /// The width of a proof: a compressed point, a challenge and a scalar.
    pub open spec fn spec_proof_width(self) -> usize {
        (self.spec_point_width() + self.spec_challenge_width() + self.spec_scalar_width()) as usize
    }

    /// The group order as a scalar of the suite's width.
    pub open spec fn spec_order(self) -> Seq<u8> {
        match self {
            CipherSuite::P256_SHA256_TAI => p256_order(),
            CipherSuite::SECP256K1_SHA256_TAI => secp256k1_order(),
            CipherSuite::K163_SHA256_TAI => k163_order(),
        }
    }

    #[verifier::when_used_as_spec(spec_suite_string)]
    pub fn suite_string(self) -> (r: u8)
        ensures
            r == self.spec_suite_string(),
    {
        match self {
            CipherSuite::P256_SHA256_TAI => 0x01,
            CipherSuite::SECP256K1_SHA256_TAI => 0xFE,
            CipherSuite::K163_SHA256_TAI => 0xFF,
        }
    }

    #[verifier::when_used_as_spec(spec_cofactor)]
    pub fn cofactor(self) -> (r: u8)
        ensures
            r == self.spec_cofactor(),
    {
        match self {
            CipherSuite::K163_SHA256_TAI => 2,
            _ => 1,
        }
    }

    #[verifier::when_used_as_spec(spec_order_bits)]
    pub fn order_bits(self) -> (r: usize)
        ensures
            r == self.spec_order_bits(),
    {
        match self {
            CipherSuite::K163_SHA256_TAI => 163,
            _ => 256,
        }
    }

    #[verifier::when_used_as_spec(spec_field_bits)]
    pub fn field_bits(self) -> (r: usize)
        ensures
            r == self.spec_field_bits(),
    {
        match self {
            CipherSuite::K163_SHA256_TAI => 163,
            _ => 256,
        }
    }

    #[verifier::when_used_as_spec(spec_challenge_bits)]
    pub fn challenge_bits(self) -> (r: usize)
        ensures
            r == self.spec_challenge_bits(),
    {
        (self.field_bits() + 1) / 2
    }

    #[verifier::when_used_as_spec(spec_field_width)]
    pub fn field_width(self) -> (r: usize)
        ensures
            r == self.spec_field_width(),
    {
        (self.field_bits() + 7) / 8
    }

    #[verifier::when_used_as_spec(spec_point_width)]
    pub fn point_width(self) -> (r: usize)
        ensures
            r == self.spec_point_width(),
    {
        self.field_width() + 1
    }

    #[verifier::when_used_as_spec(spec_scalar_width)]
    pub fn scalar_width(self) -> (r: usize)
        ensures
            r == self.spec_scalar_width(),
    {
        (self.order_bits() + 7) / 8
    }

    #[verifier::when_used_as_spec(spec_challenge_len)]
    pub fn challenge_len(self) -> (r: usize)
        ensures
            r == self.spec_challenge_len(),
    {
        self.challenge_bits() / 8
    }

    #[verifier::when_used_as_spec(spec_challenge_width)]
    pub fn challenge_width(self) -> (r: usize)
        ensures
            r == self.spec_challenge_width(),
    {
        (self.challenge_bits() + 7) / 8
    }

    #[verifier::when_used_as_spec(spec_proof_width)]
    pub fn proof_width(self) -> (r: usize)
        ensures
            r == self.spec_proof_width(),
    {
        self.point_width() + self.challenge_width() + self.scalar_width()
    }

    /// The group order as a scalar of the suite's width, most significant byte
    /// first.
    pub fn order(self) -> (r: Vec<u8>)
        ensures
            r@ == self.spec_order(),
            r@.len() == self.spec_scalar_width(),
            be_value(r@) > 0,
    {
        let r = match self {
            CipherSuite::P256_SHA256_TAI => vec![
                0xFFu8, 0xFF, 0xFF, 0xFF, 0x00, 0x00, 0x00, 0x00, 0xFF, 0xFF, 0xFF, 0xFF, 0xFF, 0xFF, 0xFF, 0xFF,
                0xBC, 0xE6, 0xFA, 0xAD, 0xA7, 0x17, 0x9E, 0x84, 0xF3, 0xB9, 0xCA, 0xC2, 0xFC, 0x63, 0x25, 0x51,
            ],
            CipherSuite::SECP256K1_SHA256_TAI => vec![
                0xFFu8, 0xFF, 0xFF, 0xFF, 0xFF, 0xFF, 0xFF, 0xFF, 0xFF, 0xFF, 0xFF, 0xFF, 0xFF, 0xFF, 0xFF, 0xFE,
                0xBA, 0xAE, 0xDC, 0xE6, 0xAF, 0x48, 0xA0, 0x3B, 0xBF, 0xD2, 0x5E, 0x8C, 0xD0, 0x36, 0x41, 0x41,
            ],
            CipherSuite::K163_SHA256_TAI => vec![
                0x04u8, 0x00, 0x00, 0x00, 0x00, 0x00, 0x00, 0x00, 0x00, 0x00, 0x02, 0x01, 0x08, 0xA2, 0xE0, 0xCC,
                0x0D, 0x99, 0xF8, 0xA5, 0xEF,
            ],
        };
        proof {
            assert(r@ =~= self.spec_order());
            lemma_order(self);
        }
        r
    }
}

/// The order of every suite has the suite's scalar width and is not zero.
pub proof fn lemma_order(suite: CipherSuite)
    ensures
        suite.spec_order().len() == suite.spec_scalar_width(),
        be_value(suite.spec_order()) > 0,
{
    let q = suite.spec_order();
    assert(q.last() > 0);
    assert(be_value(q) == be_value(q.drop_last()) * 256 + q.last() as nat);
}

/// The widths that each suite fixes.
pub proof fn lemma_widths(suite: CipherSuite)
    ensures
        suite is K163_SHA256_TAI ==> suite.spec_point_width() == 22 && suite.spec_challenge_len() == 10
            && suite.spec_challenge_width() == 11 && suite.spec_scalar_width() == 21
            && suite.spec_proof_width() == 54,
        !(suite is K163_SHA256_TAI) ==> suite.spec_point_width() == 33 && suite.spec_challenge_len()
            == 16 && suite.spec_challenge_width() == 16 && suite.spec_scalar_width() == 32
            && suite.spec_proof_width() == 81,
        suite.spec_challenge_len() <= HASH_WIDTH,
        suite.spec_field_width() <= HASH_WIDTH,
        suite.spec_challenge_len() <= suite.spec_challenge_width(),
{
}

} // verus!
