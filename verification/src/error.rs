//! The ways in which an operation of the engine can fail.
use vstd::prelude::*;

verus! {

/// Why an operation returned no result.
///
/// The first four variants report malformed input, `VerificationFailed` reports
/// a well-formed proof that does not satisfy the verification equation, and the
/// last three report that a bounded search or the arithmetic provider gave up.
#[derive(Clone, Copy, Debug, PartialEq, Eq, Structural)]
pub enum Error {
    /// The secret key has the wrong length, is zero, or is not below the group order.
    InvalidSecretKey,
    /// The public key has the wrong length or is not a point of the prime-order subgroup.
    InvalidPublicKey,
    /// The proof does not have the width that the cipher suite fixes.
    InvalidProofLength,
    /// The proof has the right width, but its point does not decode to a point of
    /// the prime-order subgroup or its response scalar is not below the group order.
    InvalidProofEncoding,
    /// The proof is well formed, but the challenge recomputed from it differs
    /// from the challenge that it carries.
    VerificationFailed,
    /// No value of the one-byte counter led to a curve point.
    HashToCurveExhausted,
    /// No candidate of the bounded nonce search lay in the range of valid scalars.
    NonceExhausted,
    /// The arithmetic provider reported a failure on operands that were well formed.
    ArithmeticFailure,
}

/// A result of byte vectors as a result of byte strings.
pub open spec fn result_view(r: Result<Vec<u8>, Error>) -> Result<Seq<u8>, Error> {
    match r {
        Ok(v) => Ok(v@),
        Err(e) => Err(e),
    }
}

impl Error {
    /// A sentence that says what went wrong.
    pub open spec fn spec_describe(self) -> Seq<char> {
        match self {
            Error::InvalidSecretKey => "the secret key is not a valid scalar of the suite"@,
            Error::InvalidPublicKey => "the public key is not a point of the prime-order subgroup"@,
            Error::InvalidProofLength => "the proof does not have the width of the suite"@,
            Error::InvalidProofEncoding => "the proof does not decode to a point and scalars of the suite"@,
            Error::VerificationFailed => "the proof does not satisfy the verification equation"@,
            Error::HashToCurveExhausted => "no counter value maps the input to a curve point"@,
            Error::NonceExhausted => "no candidate of the nonce search is a valid scalar"@,
            Error::ArithmeticFailure => "the arithmetic provider reported a failure"@,
        }
    }

    /// A sentence that says what went wrong.
    pub fn describe(self) -> (r: &'static str)
        ensures
            r@ == self.spec_describe(),
    {
        match self {
            Error::InvalidSecretKey => "the secret key is not a valid scalar of the suite",
            Error::InvalidPublicKey => "the public key is not a point of the prime-order subgroup",
            Error::InvalidProofLength => "the proof does not have the width of the suite",
            Error::InvalidProofEncoding => "the proof does not decode to a point and scalars of the suite",
            Error::VerificationFailed => "the proof does not satisfy the verification equation",
            Error::HashToCurveExhausted => "no counter value maps the input to a curve point",
            Error::NonceExhausted => "no candidate of the nonce search is a valid scalar",
            Error::ArithmeticFailure => "the arithmetic provider reported a failure",
        }
    }

    /// Whether the error reports malformed input, as opposed to a proof that is
    /// well formed but wrong, or to a search that gave up.
    pub open spec fn spec_is_input_error(self) -> bool {
        self is InvalidSecretKey || self is InvalidPublicKey || self is InvalidProofLength
            || self is InvalidProofEncoding
    }

    #[verifier::when_used_as_spec(spec_is_input_error)]
    pub fn is_input_error(self) -> (r: bool)
        ensures
            r == self.spec_is_input_error(),
    {
        match self {
            Error::InvalidSecretKey => true,
            Error::InvalidPublicKey => true,
            Error::InvalidProofLength => true,
            Error::InvalidProofEncoding => true,
            _ => false,
        }
    }
}

} // verus!
