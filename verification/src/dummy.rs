//! A stand-in that implements the capability contract without any cryptography.
use vstd::prelude::*;
use crate::error::Error;
use crate::VRF;

verus! {

/// A verifiable random function in name only: every operation succeeds and
/// returns single zero bytes. It lets calling code exercise the interface.
pub struct DummyVRF;

/// The size, in bytes, of a secret key.
pub const SECRET_KEY_SIZE: usize = 32;

/// The size, in bytes, of a serialized public key.
pub const PUBLIC_KEY_SIZE: usize = 33;

/// The type of the secret key.
pub type SecretKey<'a> = &'a [u8; SECRET_KEY_SIZE];

/// The type of the public key.
pub type PublicKey<'a> = &'a [u8; PUBLIC_KEY_SIZE];

/// The byte string that stands for every output of the stand-in.
pub open spec fn dummy_output() -> Seq<u8> {
    seq![0u8]
}

impl<'a> VRF<PublicKey<'a>, SecretKey<'a>> for DummyVRF {
    type Error = Error;

    fn prove(&mut self, _x: SecretKey<'a>, _alpha: &[u8]) -> (r: Result<Vec<u8>, Error>)
        ensures
            r matches Ok(proof) && proof@ == dummy_output(),
    {
        Ok(vec![0])
    }

    fn verify(&mut self, _y: PublicKey<'a>, _pi: &[u8], _alpha: &[u8]) -> (r: Result<Vec<u8>, Error>)
        ensures
            r matches Ok(beta) && beta@ == dummy_output(),
    {
        Ok(vec![0])
    }

    fn precompute(&mut self, _y: PublicKey<'a>, _pi: &[u8], _alpha: &[u8]) -> (r: Result<
        [Vec<u8>; 6],
        Error,
    >)
        ensures
            r matches Ok(points) && forall|i: int| 0 <= i < 6 ==> (#[trigger] points@[i])@ == dummy_output(),
    {
        Ok([vec![0], vec![0], vec![0], vec![0], vec![0], vec![0]])
    }

    fn expand(&mut self, _pi: &[u8]) -> (r: Result<[Vec<u8>; 4], Error>)
        ensures
            r matches Ok(parts) && forall|i: int| 0 <= i < 4 ==> (#[trigger] parts@[i])@ == dummy_output(),
    {
        Ok([vec![0], vec![0], vec![0], vec![0]])
    }
}

} // verus!
