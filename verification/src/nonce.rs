//! The deterministic nonce of a proof, derived from the secret key and a
//! message digest in the manner of RFC 6979.
use vstd::prelude::*;
use crate::backend::{authenticate, bn_nnmod, hmac_sha256, number_mod, opt_view};
use crate::bits::{leading_bits, spec_leading_bits, MAX_BITS_INPUT};
use crate::bytes::{append, in_range, left_pad, spec_in_range, spec_left_pad, zeros};
use crate::error::{result_view, Error};
use crate::suite::{lemma_widths, CipherSuite};

verus! {

/// The number of candidates that the search for a nonce looks at.
pub const NONCE_ATTEMPTS: usize = 256;

/// The key and the chaining value of the generator of candidates.
pub struct Generator {
    /// The key under which the next value is authenticated.
    pub key: Vec<u8>,
    /// The chaining value, from which the next candidate is drawn.
    pub value: Vec<u8>,
}

/// The key and the chaining value of the generator, as byte strings.
pub struct GeneratorView {
    /// The key under which the next value is authenticated.
    pub key: Seq<u8>,
    /// The chaining value, from which the next candidate is drawn.
    pub value: Seq<u8>,
}

impl View for Generator {
    type V = GeneratorView;

    open spec fn view(&self) -> GeneratorView {
        GeneratorView { key: self.key@, value: self.value@ }
    }
}

/// A byte string read as a number of as many bits as the group order has: the
/// leading bits of a longer string, the whole of a shorter one. The result has
/// the suite's scalar width.
pub open spec fn spec_bits2int(suite: CipherSuite, data: Seq<u8>) -> Option<Seq<u8>> {
    spec_leading_bits(data, suite.spec_order_bits() as nat, suite.spec_scalar_width() as nat)
}

/// Reads a byte string as a number of as many bits as the group order has.
pub fn bits2int(suite: CipherSuite, data: &[u8]) -> (r: Option<Vec<u8>>)
    requires
        data@.len() <= MAX_BITS_INPUT,
    ensures
        opt_view(r) == spec_bits2int(suite, data@),
        r matches Some(v) ==> v@.len() == suite.spec_scalar_width(),
{
    proof {
        lemma_widths(suite);
        assert(data@.len() * 8 <= suite.spec_order_bits() ==> data@.len() <= suite.spec_scalar_width());
    }
    leading_bits(data, suite.order_bits(), suite.scalar_width())
}

/// A byte string read as a number and reduced modulo the group order, as a
/// scalar of the suite's width.
pub open spec fn spec_bits2octets(suite: CipherSuite, data: Seq<u8>) -> Option<Seq<u8>> {
    match spec_bits2int(suite, data) {
        Some(number) => bn_nnmod(number, suite.spec_order(), suite.spec_scalar_width() as nat),
        None => None,
    }
}

/// Reads a byte string as a number and reduces it modulo the group order.
pub fn bits2octets(suite: CipherSuite, data: &[u8]) -> (r: Option<Vec<u8>>)
    requires
        data@.len() <= MAX_BITS_INPUT,
    ensures
        opt_view(r) == spec_bits2octets(suite, data@),
        r matches Some(v) ==> v@.len() == suite.spec_scalar_width(),
{
    match bits2int(suite, data) {
        Some(number) => {
            let order = suite.order();
            proof {
                lemma_widths(suite);
            }
            number_mod(number.as_slice(), order.as_slice(), suite.scalar_width())
        },
        None => None,
    }
}

/// What is authenticated to renew the key of the generator: the chaining
/// value, a tag byte, and further material.
pub open spec fn spec_rekey_input(value: Seq<u8>, tag: u8, material: Seq<u8>) -> Seq<u8> {
    value + seq![tag] + material
}

/// The generator after one renewal of its key with `material` under `tag`:
/// the new key authenticates the old value, the tag and the material under
/// the old key, the new value authenticates the old value under the new key.
pub open spec fn spec_rekey(g: GeneratorView, tag: u8, material: Seq<u8>) -> GeneratorView {
    let key = hmac_sha256(g.key, spec_rekey_input(g.value, tag, material));
    GeneratorView { key, value: hmac_sha256(key, g.value) }
}

/// Renews the key of the generator with `material` under `tag`.
pub fn rekey(g: &Generator, tag: u8, material: &[u8]) -> (r: Generator)
    ensures
        r@ == spec_rekey(g@, tag, material@),
{
    let mut input: Vec<u8> = Vec::new();
    append(&mut input, g.value.as_slice());
    input.push(tag);
    append(&mut input, material);
    proof {
        assert(input@ =~= spec_rekey_input(g@.value, tag, material@));
    }
    let key = authenticate(g.key.as_slice(), input.as_slice());
    let value = authenticate(key.as_slice(), g.value.as_slice());
    Generator { key, value }
}

/// The generator before any key material has entered it: a key of 32 zero
/// bytes and a value of 32 bytes 0x01.
pub open spec fn spec_initial() -> GeneratorView {
    GeneratorView { key: zeros(32), value: Seq::new(32, |i: int| 1u8) }
}

/// The generator before any key material has entered it.
pub fn initial() -> (r: Generator)
    ensures
        r@ == spec_initial(),
{
    let mut key: Vec<u8> = Vec::new();
    let mut value: Vec<u8> = Vec::new();
    let mut i: usize = 0;
    while i < 32
        invariant
            i <= 32,
            key@.len() == i,
            value@.len() == i,
            forall|j: int| 0 <= j < i ==> key@[j] == 0u8,
            forall|j: int| 0 <= j < i ==> value@[j] == 1u8,
        decreases 32 - i,
    {
        key.push(0u8);
        value.push(1u8);
        i += 1;
    }
    proof {
        assert(key@ =~= spec_initial().key);
        assert(value@ =~= spec_initial().value);
    }
    Generator { key, value }
}

/// The generator seeded with a secret scalar and a reduced digest: two
/// renewals of the key, with the tags 0x00 and 0x01, each over the scalar
/// followed by the digest.
pub open spec fn spec_seed(secret: Seq<u8>, reduced: Seq<u8>) -> GeneratorView {
    spec_rekey(spec_rekey(spec_initial(), 0x00, secret + reduced), 0x01, secret + reduced)
}

/// Seeds the generator with a secret scalar and a reduced digest.
pub fn seed(secret: &[u8], reduced: &[u8]) -> (r: Generator)
    ensures
        r@ == spec_seed(secret@, reduced@),
{
    let mut material: Vec<u8> = Vec::new();
    append(&mut material, secret);
    append(&mut material, reduced);
    proof {
        assert(material@ =~= secret@ + reduced@);
    }
    let start = initial();
    let first = rekey(&start, 0x00, material.as_slice());
    rekey(&first, 0x01, material.as_slice())
}

/// The nonce that the generator yields within `attempts` candidates.
///
/// Each round draws a new value, reads it as a number, and accepts it if it
/// lies from 1 up to, but not including, the group order. Otherwise the key is
/// renewed with the tag 0x00 and no material, and the next round follows.
pub open spec fn spec_search(suite: CipherSuite, g: GeneratorView, attempts: nat) -> Result<
    Seq<u8>,
    Error,
>
    decreases attempts,
{
    if attempts == 0 {
        Err(Error::NonceExhausted)
    } else {
        let value = hmac_sha256(g.key, g.value);
        match spec_bits2int(suite, value) {
            None => Err(Error::ArithmeticFailure),
            Some(number) => if spec_in_range(number, suite.spec_order()) {
                Ok(number)
            } else {
                spec_search(
                    suite,
                    spec_rekey(GeneratorView { key: g.key, value }, 0x00, Seq::empty()),
                    (attempts - 1) as nat,
                )
            },
        }
    }
}

/// The nonce of a secret scalar and a message digest.
///
/// The digest is read as a number and reduced modulo the group order; the
/// secret is padded to the suite's scalar width; both seed the generator, and
/// the first of its candidates that is a valid scalar is the nonce.
pub open spec fn spec_generate_nonce(suite: CipherSuite, secret: Seq<u8>, digest: Seq<u8>) -> Result<
    Seq<u8>,
    Error,
> {
    match spec_bits2octets(suite, digest) {
        None => Err(Error::ArithmeticFailure),
        Some(reduced) => spec_search(
            suite,
            spec_seed(spec_left_pad(secret, suite.spec_scalar_width() as nat), reduced),
            NONCE_ATTEMPTS as nat,
        ),
    }
}

/// A nonce that the search yields is a valid scalar of the suite, and the
/// search fails in two ways only.
pub proof fn lemma_search_outcome(suite: CipherSuite, g: GeneratorView, attempts: nat)
    ensures
        match spec_search(suite, g, attempts) {
            Ok(k) => spec_in_range(k, suite.spec_order()),
            Err(e) => e == Error::NonceExhausted || e == Error::ArithmeticFailure,
        },
    decreases attempts,
{
    if attempts > 0 {
        let value = hmac_sha256(g.key, g.value);
        match spec_bits2int(suite, value) {
            None => {},
            Some(number) => {
                if !spec_in_range(number, suite.spec_order()) {
                    lemma_search_outcome(
                        suite,
                        spec_rekey(GeneratorView { key: g.key, value }, 0x00, Seq::empty()),
                        (attempts - 1) as nat,
                    );
                }
            },
        }
    }
}

/// A nonce that is derived is a valid scalar of the suite, and the derivation
/// fails in two ways only.
pub proof fn lemma_nonce_outcome(suite: CipherSuite, secret: Seq<u8>, digest: Seq<u8>)
    ensures
        match spec_generate_nonce(suite, secret, digest) {
            Ok(k) => spec_in_range(k, suite.spec_order()),
            Err(e) => e == Error::NonceExhausted || e == Error::ArithmeticFailure,
        },
{
    match spec_bits2octets(suite, digest) {
        None => {},
        Some(reduced) => {
            lemma_search_outcome(
                suite,
                spec_seed(spec_left_pad(secret, suite.spec_scalar_width() as nat), reduced),
                NONCE_ATTEMPTS as nat,
            );
        },
    }
}

/// Searches the candidates of the generator for a nonce, `attempts` of them at
/// most.
pub fn search(suite: CipherSuite, start: Generator, attempts: usize) -> (r: Result<Vec<u8>, Error>)
    ensures
        result_view(r) == spec_search(suite, start@, attempts as nat),
        r matches Ok(k) ==> spec_in_range(k@, suite.spec_order()),
        r matches Err(e) ==> e == Error::NonceExhausted || e == Error::ArithmeticFailure,
        attempts == 0 ==> r matches Err(Error::NonceExhausted),
{
    let mut g = start;
    let order = suite.order();
    let empty: Vec<u8> = Vec::new();
    let mut left: usize = attempts;
    while left > 0
        invariant
            order@ == suite.spec_order(),
            empty@ == Seq::<u8>::empty(),
            spec_search(suite, start@, attempts as nat) == spec_search(suite, g@, left as nat),
        decreases left,
    {
        let value = authenticate(g.key.as_slice(), g.value.as_slice());
        let number = match bits2int(suite, value.as_slice()) {
            Some(number) => number,
            None => {
                return Err(Error::ArithmeticFailure);
            },
        };
        if in_range(number.as_slice(), order.as_slice()) {
            return Ok(number);
        }
        let drawn = Generator { key: g.key, value };
        g = rekey(&drawn, 0x00, empty.as_slice());
        left -= 1;
    }
    Err(Error::NonceExhausted)
}

/// Derives the nonce of a secret scalar and a message digest.
///
/// The result depends on the two arguments and the suite alone: no randomness
/// enters it. It is a scalar of the suite's width from 1 up to, but not
/// including, the group order.
pub fn generate_nonce(suite: CipherSuite, secret: &[u8], digest: &[u8]) -> (r: Result<Vec<u8>, Error>)
    requires
        digest@.len() <= MAX_BITS_INPUT,
    ensures
        result_view(r) == spec_generate_nonce(suite, secret@, digest@),
        r matches Ok(k) ==> spec_in_range(k@, suite.spec_order()),
        r matches Err(e) ==> e == Error::NonceExhausted || e == Error::ArithmeticFailure,
{
    let reduced = match bits2octets(suite, digest) {
        Some(reduced) => reduced,
        None => {
            return Err(Error::ArithmeticFailure);
        },
    };
    let padded = left_pad(secret, suite.scalar_width());
    let g = seed(padded.as_slice(), reduced.as_slice());
    search(suite, g, NONCE_ATTEMPTS)
}

} // verus!
