//! The map from a public key and a message to a curve point, by
//! try-and-increment.
use vstd::prelude::*;
use crate::backend::{digest, opt_view, sha256};
use crate::bits::{leading_bits, spec_leading_bits, MAX_BITS_INPUT};
use crate::bytes::append;
use crate::error::{result_view, Error};
use crate::point::{
    clear_cofactor, spec_clear_cofactor, spec_subgroup_point, spec_valid_point, subgroup_point,
};
use crate::suite::{lemma_widths, CipherSuite};

verus! {

/// The number of values that the one-byte counter takes.
pub const COUNTER_VALUES: usize = 256;

/// The byte that marks a hash input as one of the map to the curve.
pub const HASH_TO_CURVE_TAG: u8 = 0x01;

/// The sign byte that is put in front of a digest to read it as a point.
pub const EVEN_SIGN: u8 = 0x02;

/// What is hashed for one value of the counter: the suite byte, the tag of the
/// map, the public key, the message and the counter.
pub open spec fn spec_attempt_input(suite: CipherSuite, public_key: Seq<u8>, alpha: Seq<u8>, counter: u8) -> Seq<
    u8,
> {
    seq![suite.spec_suite_string(), HASH_TO_CURVE_TAG] + public_key + alpha + seq![counter]
}

/// Builds what is hashed for one value of the counter.
pub fn attempt_input(suite: CipherSuite, public_key: &[u8], alpha: &[u8], counter: u8) -> (r: Vec<u8>)
    ensures
        r@ == spec_attempt_input(suite, public_key@, alpha@, counter),
{
    let mut input: Vec<u8> = Vec::new();
    input.push(suite.suite_string());
    input.push(HASH_TO_CURVE_TAG);
    proof {
        assert(input@ =~= seq![suite.spec_suite_string(), HASH_TO_CURVE_TAG]);
    }
    append(&mut input, public_key);
    append(&mut input, alpha);
    input.push(counter);
    proof {
        assert(input@ =~= spec_attempt_input(suite, public_key@, alpha@, counter));
    }
    input
}

/// A digest read as a compressed point: the sign byte of an even point, then
/// the number that the leading bits of the digest encode, as many bits as a
/// field element has.
pub open spec fn spec_candidate(suite: CipherSuite, digest: Seq<u8>) -> Option<Seq<u8>> {
    match spec_leading_bits(digest, suite.spec_field_bits() as nat, suite.spec_field_width() as nat) {
        Some(x) => Some(seq![EVEN_SIGN] + x),
        None => None,
    }
}

/// Writes a digest as the compressed point that it is read as.
pub fn candidate(suite: CipherSuite, digest: &[u8]) -> (r: Option<Vec<u8>>)
    requires
        digest@.len() <= MAX_BITS_INPUT,
    ensures
        opt_view(r) == spec_candidate(suite, digest@),
{
    proof {
        lemma_widths(suite);
    }
    match leading_bits(digest, suite.field_bits(), suite.field_width()) {
        Some(x) => {
            let mut point: Vec<u8> = Vec::new();
            point.push(EVEN_SIGN);
            append(&mut point, x.as_slice());
            proof {
                assert(point@ =~= seq![EVEN_SIGN] + x@);
            }
            Some(point)
        },
        None => None,
    }
}

/// The point that one value of the counter leads to, if it leads to one: the
/// digest of the input, read as a point and taken into the prime-order
/// subgroup. A result that is no point of the subgroup counts as none.
pub open spec fn spec_attempt(suite: CipherSuite, public_key: Seq<u8>, alpha: Seq<u8>, counter: u8) -> Option<
    Seq<u8>,
> {
    match spec_candidate(suite, sha256(spec_attempt_input(suite, public_key, alpha, counter))) {
        Some(point) => spec_subgroup_point(suite, spec_clear_cofactor(suite, point)),
        None => None,
    }
}

/// The point of the first counter value from `from` on that leads to one.
pub open spec fn spec_search(suite: CipherSuite, public_key: Seq<u8>, alpha: Seq<u8>, from: nat) -> Option<
    Seq<u8>,
>
    decreases COUNTER_VALUES - from,
{
    if from >= COUNTER_VALUES {
        None
    } else {
        match spec_attempt(suite, public_key, alpha, from as u8) {
            Some(point) => Some(point),
            None => spec_search(suite, public_key, alpha, from + 1),
        }
    }
}

/// The point that a public key and a message are mapped to: that of the first
/// counter value that leads to one. Where none of the 256 values does, the map
/// fails.
pub open spec fn spec_hash_to_curve(suite: CipherSuite, public_key: Seq<u8>, alpha: Seq<u8>) -> Result<
    Seq<u8>,
    Error,
> {
    match spec_search(suite, public_key, alpha, 0) {
        Some(point) => Ok(point),
        None => Err(Error::HashToCurveExhausted),
    }
}

/// A point that the search returns is a point of the prime-order subgroup.
pub proof fn lemma_search_valid(suite: CipherSuite, public_key: Seq<u8>, alpha: Seq<u8>, from: nat)
    ensures
        spec_search(suite, public_key, alpha, from) matches Some(point) ==> spec_valid_point(
            suite,
            point,
        ),
    decreases COUNTER_VALUES - from,
{
    if from < COUNTER_VALUES {
        if spec_attempt(suite, public_key, alpha, from as u8) is None {
            lemma_search_valid(suite, public_key, alpha, from + 1);
        }
    }
}

/// The map to the curve returns points of the prime-order subgroup, and fails
/// in one way only.
pub proof fn lemma_hash_to_curve_outcome(suite: CipherSuite, public_key: Seq<u8>, alpha: Seq<u8>)
    ensures
        match spec_hash_to_curve(suite, public_key, alpha) {
            Ok(point) => spec_valid_point(suite, point),
            Err(e) => e == Error::HashToCurveExhausted,
        },
{
    lemma_search_valid(suite, public_key, alpha, 0);
}

/// Tries one value of the counter.
pub fn attempt(suite: CipherSuite, public_key: &[u8], alpha: &[u8], counter: u8) -> (r: Option<Vec<u8>>)
    ensures
        opt_view(r) == spec_attempt(suite, public_key@, alpha@, counter),
        r matches Some(point) ==> spec_valid_point(suite, point@),
{
    let input = attempt_input(suite, public_key, alpha, counter);
    let hash = digest(input.as_slice());
    match candidate(suite, hash.as_slice()) {
        Some(point) => subgroup_point(suite, clear_cofactor(suite, point.as_slice())),
        None => None,
    }
}

/// Tries the counter values from `from` up to 255 in turn and returns the
/// point of the first that leads to one.
pub fn search(suite: CipherSuite, public_key: &[u8], alpha: &[u8], from: usize) -> (r: Option<Vec<u8>>)
    ensures
        opt_view(r) == spec_search(suite, public_key@, alpha@, from as nat),
        r matches Some(point) ==> spec_valid_point(suite, point@),
        from >= COUNTER_VALUES ==> r is None,
{
    let mut counter: usize = from;
    while counter < COUNTER_VALUES
        invariant
            spec_search(suite, public_key@, alpha@, from as nat) == spec_search(
                suite,
                public_key@,
                alpha@,
                counter as nat,
            ),
        decreases COUNTER_VALUES - counter,
    {
        match attempt(suite, public_key, alpha, counter as u8) {
            Some(point) => {
                return Some(point);
            },
            None => {},
        }
        counter += 1;
    }
    None
}

/// Maps a public key and a message to a point of the prime-order subgroup.
///
/// The counter runs from 0 to 255, and the first value whose digest decodes to
/// a point decides. The same input always gives the same point.
pub fn hash_to_curve(suite: CipherSuite, public_key: &[u8], alpha: &[u8]) -> (r: Result<Vec<u8>, Error>)
    ensures
        result_view(r) == spec_hash_to_curve(suite, public_key@, alpha@),
        r matches Ok(point) ==> spec_valid_point(suite, point@),
        r matches Err(e) ==> e == Error::HashToCurveExhausted,
{
    match search(suite, public_key, alpha, 0) {
        Some(point) => Ok(point),
        None => Err(Error::HashToCurveExhausted),
    }
}

/// The map to the curve returns the point of the least counter value that
/// leads to one, and fails exactly if no counter value leads to one.
pub proof fn lemma_search_least(suite: CipherSuite, public_key: Seq<u8>, alpha: Seq<u8>, from: nat)
    requires
        from <= COUNTER_VALUES,
    ensures
        match spec_search(suite, public_key, alpha, from) {
            Some(point) => exists|c: nat|
                from <= c < COUNTER_VALUES && #[trigger] spec_attempt(suite, public_key, alpha, c as u8)
                    == Some(point) && forall|d: nat|
                    from <= d < c ==> #[trigger] spec_attempt(suite, public_key, alpha, d as u8) is None,
            None => forall|c: nat|
                from <= c < COUNTER_VALUES ==> #[trigger] spec_attempt(suite, public_key, alpha, c as u8)
                    is None,
        },
    decreases COUNTER_VALUES - from,
{
    if from < COUNTER_VALUES {
        match spec_attempt(suite, public_key, alpha, from as u8) {
            Some(point) => {
                assert(from <= from < COUNTER_VALUES && spec_attempt(suite, public_key, alpha, from as u8)
                    == Some(point));
            },
            None => {
                lemma_search_least(suite, public_key, alpha, from + 1);
                match spec_search(suite, public_key, alpha, from + 1) {
                    Some(point) => {
                        let c = choose|c: nat|
                            from + 1 <= c < COUNTER_VALUES && #[trigger] spec_attempt(
                                suite,
                                public_key,
                                alpha,
                                c as u8,
                            ) == Some(point) && forall|d: nat|
                                from + 1 <= d < c ==> #[trigger] spec_attempt(
                                    suite,
                                    public_key,
                                    alpha,
                                    d as u8,
                                ) is None;
                        assert forall|d: nat| from <= d < c implies #[trigger] spec_attempt(
                            suite,
                            public_key,
                            alpha,
                            d as u8,
                        ) is None by {
                            if d == from {
                            }
                        }
                        assert(from <= c < COUNTER_VALUES && spec_attempt(suite, public_key, alpha, c as u8)
                            == Some(point));
                    },
                    None => {
                        assert forall|c: nat| from <= c < COUNTER_VALUES implies #[trigger] spec_attempt(
                            suite,
                            public_key,
                            alpha,
                            c as u8,
                        ) is None by {
                            if c == from {
                            }
                        }
                    },
                }
            },
        }
    }
}

} // verus!
