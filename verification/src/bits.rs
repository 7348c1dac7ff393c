//! Byte strings read as numbers of a given length in bits.
use vstd::prelude::*;
use crate::backend::{bn_rshift, number_rshift, opt_view, MAX_NUMBER_LEN};
use crate::bytes::{be_value, left_pad, spec_left_pad};
use vstd::arithmetic::power2::pow2;

verus! {

/// The longest byte string that is read as a number: its length in bits must
/// fit the provider.
pub const MAX_BITS_INPUT: usize = 0x0fff_ffff;

/// The number that the leading `bits` bits of `data` encode, as a string of
/// `width` bytes. A string of no more than `bits` bits is taken whole; a longer
/// one is shifted right by the provider until `bits` bits are left.
pub open spec fn spec_leading_bits(data: Seq<u8>, bits: nat, width: nat) -> Option<Seq<u8>> {
    if data.len() * 8 > bits {
        bn_rshift(data, (data.len() * 8 - bits) as nat, width)
    } else {
        Some(spec_left_pad(data, width))
    }
}

/// Reads the leading `bits` bits of `data` as a number of `width` bytes.
pub fn leading_bits(data: &[u8], bits: usize, width: usize) -> (r: Option<Vec<u8>>)
    requires
        data@.len() <= MAX_BITS_INPUT,
        width <= MAX_NUMBER_LEN,
    ensures
        opt_view(r) == spec_leading_bits(data@, bits as nat, width as nat),
        r matches Some(v) ==> be_value(v@) == if data@.len() * 8 > bits {
            be_value(data@) / pow2((data@.len() * 8 - bits) as nat)
        } else {
            be_value(data@)
        },
        r matches Some(v) ==> (data@.len() * 8 > bits || data@.len() <= width ==> v@.len() == width),
{
    let length = data.len() * 8;
    if length > bits {
        number_rshift(data, length - bits, width)
    } else {
        Some(left_pad(data, width))
    }
}

} // verus!
