//! The proof and its fixed-width encoding.
use vstd::prelude::*;
use crate::bytes::{append, be_value, copy_range, less_than};
use crate::error::Error;
use crate::point::{spec_valid_point, valid_point};
use crate::suite::{lemma_widths, CipherSuite};

verus! {

/// A proof: the point Gamma in compressed form, the challenge and the
/// response.
#[derive(Debug)]
pub struct Proof {
    /// The point Gamma, in compressed form.
    pub gamma: Vec<u8>,
    /// The challenge, with zero bytes in front up to the suite's challenge width.
    pub c: Vec<u8>,
    /// The response.
    pub s: Vec<u8>,
}

/// A proof as three byte strings.
pub struct ProofView {
    /// The point Gamma, in compressed form.
    pub gamma: Seq<u8>,
    /// The challenge.
    pub c: Seq<u8>,
    /// The response.
    pub s: Seq<u8>,
}

impl View for Proof {
    type V = ProofView;

    open spec fn view(&self) -> ProofView {
        ProofView { gamma: self.gamma@, c: self.c@, s: self.s@ }
    }
}

/// A result of a proof as a result of its three byte strings.
pub open spec fn proof_result_view(r: Result<Proof, Error>) -> Result<ProofView, Error> {
    match r {
        Ok(p) => Ok(p@),
        Err(e) => Err(e),
    }
}

impl ProofView {
    /// Whether the three parts have the widths that the suite fixes.
    pub open spec fn has_widths(self, suite: CipherSuite) -> bool {
        &&& self.gamma.len() == suite.spec_point_width()
        &&& self.c.len() == suite.spec_challenge_width()
        &&& self.s.len() == suite.spec_scalar_width()
    }

    /// The encoding of the proof: Gamma, then the challenge, then the response.
    pub open spec fn encoding(self) -> Seq<u8> {
        self.gamma + self.c + self.s
    }
}

/// The three parts of a proof of the suite's width. A string of any other
/// length is no proof.
pub open spec fn spec_split(suite: CipherSuite, pi: Seq<u8>) -> Result<ProofView, Error> {
    if pi.len() != suite.spec_proof_width() {
        Err(Error::InvalidProofLength)
    } else {
        let c_from = suite.spec_point_width() as int;
        let s_from = c_from + suite.spec_challenge_width();
        Ok(
            ProofView {
                gamma: pi.subrange(0, c_from),
                c: pi.subrange(c_from, s_from),
                s: pi.subrange(s_from, pi.len() as int),
            },
        )
    }
}

/// The proof that a byte string encodes.
///
/// The length is looked at first. Then Gamma must be a point of the
/// prime-order subgroup, and the response must be below the group order.
pub open spec fn spec_decode(suite: CipherSuite, pi: Seq<u8>) -> Result<ProofView, Error> {
    match spec_split(suite, pi) {
        Err(e) => Err(e),
        Ok(parts) => if !spec_valid_point(suite, parts.gamma) {
            Err(Error::InvalidProofEncoding)
        } else if !(be_value(parts.s) < be_value(suite.spec_order())) {
            Err(Error::InvalidProofEncoding)
        } else {
            Ok(parts)
        },
    }
}

impl Proof {
    /// Writes the proof as one byte string: Gamma, then the challenge, then the
    /// response.
    pub fn encode(&self) -> (r: Vec<u8>)
        ensures
            r@ == self@.encoding(),
    {
        let mut out: Vec<u8> = Vec::new();
        append(&mut out, self.gamma.as_slice());
        append(&mut out, self.c.as_slice());
        append(&mut out, self.s.as_slice());
        proof {
            assert(out@ =~= self@.encoding());
        }
        out
    }

    /// Cuts a byte string of the suite's proof width into the three parts of a
    /// proof. No curve arithmetic takes place.
    pub fn split(suite: CipherSuite, pi: &[u8]) -> (r: Result<Proof, Error>)
        ensures
            proof_result_view(r) == spec_split(suite, pi@),
            r is Err <==> pi@.len() != suite.spec_proof_width(),
            r matches Err(e) ==> e == Error::InvalidProofLength,
            r matches Ok(p) ==> p@.has_widths(suite) && p@.encoding() == pi@,
    {
        if pi.len() != suite.proof_width() {
            return Err(Error::InvalidProofLength);
        }
        let c_from = suite.point_width();
        let s_from = c_from + suite.challenge_width();
        let gamma = copy_range(pi, 0, c_from);
        let c = copy_range(pi, c_from, s_from);
        let s = copy_range(pi, s_from, pi.len());
        let p = Proof { gamma, c, s };
        proof {
            assert(p@.encoding() =~= pi@);
        }
        Ok(p)
    }

    /// Decodes a proof and checks that it is well formed: its width, that Gamma
    /// is a point of the prime-order subgroup, and that the response is below
    /// the group order.
    pub fn decode(suite: CipherSuite, pi: &[u8]) -> (r: Result<Proof, Error>)
        ensures
            proof_result_view(r) == spec_decode(suite, pi@),
            pi@.len() != suite.spec_proof_width() ==> r matches Err(Error::InvalidProofLength),
            r matches Err(e) ==> e == Error::InvalidProofLength || e == Error::InvalidProofEncoding,
            r matches Ok(p) ==> p@.has_widths(suite) && p@.encoding() == pi@ && spec_valid_point(
                suite,
                p@.gamma,
            ) && be_value(p@.s) < be_value(suite.spec_order()),
    {
        let p = match Proof::split(suite, pi) {
            Ok(p) => p,
            Err(e) => {
                return Err(e);
            },
        };
        if !valid_point(suite, p.gamma.as_slice()) {
            return Err(Error::InvalidProofEncoding);
        }
        let order = suite.order();
        if !less_than(p.s.as_slice(), order.as_slice()) {
            return Err(Error::InvalidProofEncoding);
        }
        Ok(p)
    }
}

/// A proof whose parts have the suite's widths is split into the same parts
/// after it has been encoded.
pub proof fn lemma_split_encoding(suite: CipherSuite, p: ProofView)
    requires
        p.has_widths(suite),
    ensures
        spec_split(suite, p.encoding()) == Ok::<ProofView, Error>(p),
{
    let pi = p.encoding();
    let c_from = suite.spec_point_width() as int;
    let s_from = c_from + suite.spec_challenge_width();
    lemma_widths(suite);
    assert(pi.subrange(0, c_from) =~= p.gamma);
    assert(pi.subrange(c_from, s_from) =~= p.c);
    assert(pi.subrange(s_from, pi.len() as int) =~= p.s);
}

/// The parts that a byte string is split into encode to that byte string, and
/// have the suite's widths.
pub proof fn lemma_encoding_split(suite: CipherSuite, pi: Seq<u8>)
    requires
        spec_split(suite, pi) is Ok,
    ensures
        spec_split(suite, pi)->Ok_0.encoding() == pi,
        spec_split(suite, pi)->Ok_0.has_widths(suite),
{
    lemma_widths(suite);
    assert(spec_split(suite, pi)->Ok_0.encoding() =~= pi);
}

} // verus!
