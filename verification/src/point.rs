//! Curve points as the engine holds them: in compressed form, as byte strings.
use vstd::prelude::*;
use crate::backend::{ec_decode, ec_mul, opt_view, point_decode, point_mul};
use crate::suite::{lemma_widths, CipherSuite};

verus! {

/// The encoding of the identity of the group, the point at infinity.
pub open spec fn identity() -> Seq<u8> {
    seq![0u8]
}

/// Whether `p` is the encoding of the identity.
pub fn is_identity(p: &[u8]) -> (r: bool)
    ensures
        r == (p@ == identity()),
{
    let r = p.len() == 1 && p[0] == 0;
    proof {
        if r {
            assert(p@ =~= identity());
        }
    }
    r
}

/// What the provider returned, kept only if it has the width of a compressed
/// point of the suite. The identity, which is one byte long, is not kept.
pub open spec fn spec_checked_point(suite: CipherSuite, p: Option<Seq<u8>>) -> Option<Seq<u8>> {
    match p {
        Some(bytes) => if bytes.len() == suite.spec_point_width() {
            Some(bytes)
        } else {
            None
        },
        None => None,
    }
}

/// Keeps a point that the provider returned only if it has the width of a
/// compressed point of the suite.
pub fn checked_point(suite: CipherSuite, p: Option<Vec<u8>>) -> (r: Option<Vec<u8>>)
    ensures
        opt_view(r) == spec_checked_point(suite, opt_view(p)),
{
    match p {
        Some(bytes) => if bytes.len() == suite.point_width() {
            Some(bytes)
        } else {
            None
        },
        None => None,
    }
}

/// A point of the prime-order subgroup other than the identity: a string of the
/// suite's point width that encodes a point of the curve which the group order
/// takes to the identity.
pub open spec fn spec_valid_point(suite: CipherSuite, p: Seq<u8>) -> bool {
    &&& p.len() == suite.spec_point_width()
    &&& ec_mul(suite, p, suite.spec_order()) == Some(identity())
}

/// Whether `p` encodes a point of the prime-order subgroup other than the
/// identity. A point that is on the curve but outside the subgroup is refused.
pub fn valid_point(suite: CipherSuite, p: &[u8]) -> (r: bool)
    ensures
        r == spec_valid_point(suite, p@),
{
    if p.len() != suite.point_width() {
        return false;
    }
    let order = suite.order();
    proof {
        lemma_widths(suite);
    }
    match point_mul(suite, p, order.as_slice()) {
        Some(multiple) => is_identity(multiple.as_slice()),
        None => false,
    }
}

/// What the provider returned, kept only if it is a point of the prime-order
/// subgroup other than the identity.
pub open spec fn spec_subgroup_point(suite: CipherSuite, p: Option<Seq<u8>>) -> Option<Seq<u8>> {
    match p {
        Some(bytes) => if spec_valid_point(suite, bytes) {
            Some(bytes)
        } else {
            None
        },
        None => None,
    }
}

/// Keeps a point that the provider returned only if it is a point of the
/// prime-order subgroup other than the identity.
pub fn subgroup_point(suite: CipherSuite, p: Option<Vec<u8>>) -> (r: Option<Vec<u8>>)
    ensures
        opt_view(r) == spec_subgroup_point(suite, opt_view(p)),
        r matches Some(bytes) ==> spec_valid_point(suite, bytes@),
{
    match p {
        Some(bytes) => if valid_point(suite, bytes.as_slice()) {
            Some(bytes)
        } else {
            None
        },
        None => None,
    }
}

/// The point that `p` encodes, taken into the prime-order subgroup: decoded
/// where the cofactor is 1, multiplied by the cofactor where it is not. `None`
/// where `p` encodes no point of the curve or the result is the identity.
pub open spec fn spec_clear_cofactor(suite: CipherSuite, p: Seq<u8>) -> Option<Seq<u8>> {
    if suite.spec_cofactor() == 1 {
        spec_checked_point(suite, ec_decode(suite, p))
    } else {
        spec_checked_point(suite, ec_mul(suite, p, seq![suite.spec_cofactor()]))
    }
}

/// Takes the point that `p` encodes into the prime-order subgroup.
pub fn clear_cofactor(suite: CipherSuite, p: &[u8]) -> (r: Option<Vec<u8>>)
    ensures
        opt_view(r) == spec_clear_cofactor(suite, p@),
{
    let h = suite.cofactor();
    if h == 1 {
        checked_point(suite, point_decode(suite, p))
    } else {
        let mut scalar: Vec<u8> = Vec::new();
        scalar.push(h);
        proof {
            assert(scalar@ =~= seq![suite.spec_cofactor()]);
        }
        checked_point(suite, point_mul(suite, p, scalar.as_slice()))
    }
}

} // verus!
