//! The incremental hasher state behind the digest engine: one of the outside
//! crates' streaming hashers, held opaquely, modelled by the algorithm it was
//! constructed for and the bytes fed since construction or the last reset.

use vstd::prelude::*;

use crate::algorithm::HashAlgorithm;
use crate::hashes::digest_of;
use sha1::digest::{Digest, DynDigest};

verus! {

/// An incremental hasher of one of the outside crates, beside the algorithm
/// tag it was constructed for. Exactly one of the two holders is occupied:
/// the trait object serves the twelve `DynDigest` algorithms, the dedicated
/// field serves BLAKE3.
#[verifier::external_body]
pub struct HasherState {
    tag: HashAlgorithm,
    rust_crypto: Option<Box<dyn DynDigest>>,
    blake3: Option<blake3::Hasher>,
}

pub uninterp spec fn state_alg(s: HasherState) -> HashAlgorithm;

pub uninterp spec fn state_fed(s: HasherState) -> Seq<u8>;

/// Relies on `md5::Md5::new` (crate `md-5`): a fresh MD5 hasher has been fed
/// nothing.
#[verifier::external_body]
fn state_new_md5() -> (s: HasherState)
    ensures
        state_alg(s) == HashAlgorithm::Md5,
        state_fed(s) == Seq::<u8>::empty(),
{
    HasherState {
        tag: HashAlgorithm::Md5,
        rust_crypto: Some(Box::new(md5::Md5::new())),
        blake3: None,
    }
}

/// Relies on `sha1::Sha1::new`: a fresh SHA-1 hasher has been fed nothing.
#[verifier::external_body]
fn state_new_sha1() -> (s: HasherState)
    ensures
        state_alg(s) == HashAlgorithm::Sha1,
        state_fed(s) == Seq::<u8>::empty(),
{
    HasherState {
        tag: HashAlgorithm::Sha1,
        rust_crypto: Some(Box::new(sha1::Sha1::new())),
        blake3: None,
    }
}

/// Relies on `sha2::Sha224::new`: a fresh SHA-224 hasher has been fed
/// nothing.
#[verifier::external_body]
fn state_new_sha224() -> (s: HasherState)
    ensures
        state_alg(s) == HashAlgorithm::Sha224,
        state_fed(s) == Seq::<u8>::empty(),
{
    HasherState {
        tag: HashAlgorithm::Sha224,
        rust_crypto: Some(Box::new(sha2::Sha224::new())),
        blake3: None,
    }
}

/// Relies on `sha2::Sha256::new`: a fresh SHA-256 hasher has been fed
/// nothing.
#[verifier::external_body]
fn state_new_sha256() -> (s: HasherState)
    ensures
        state_alg(s) == HashAlgorithm::Sha256,
        state_fed(s) == Seq::<u8>::empty(),
{
    HasherState {
        tag: HashAlgorithm::Sha256,
        rust_crypto: Some(Box::new(sha2::Sha256::new())),
        blake3: None,
    }
}

/// Relies on `sha2::Sha384::new`: a fresh SHA-384 hasher has been fed
/// nothing.
#[verifier::external_body]
fn state_new_sha384() -> (s: HasherState)
    ensures
        state_alg(s) == HashAlgorithm::Sha384,
        state_fed(s) == Seq::<u8>::empty(),
{
    HasherState {
        tag: HashAlgorithm::Sha384,
        rust_crypto: Some(Box::new(sha2::Sha384::new())),
        blake3: None,
    }
}

/// Relies on `sha2::Sha512::new`: a fresh SHA-512 hasher has been fed
/// nothing.
#[verifier::external_body]
fn state_new_sha512() -> (s: HasherState)
    ensures
        state_alg(s) == HashAlgorithm::Sha512,
        state_fed(s) == Seq::<u8>::empty(),
{
    HasherState {
        tag: HashAlgorithm::Sha512,
        rust_crypto: Some(Box::new(sha2::Sha512::new())),
        blake3: None,
    }
}

/// Relies on `sha2::Sha512_224::new`: a fresh SHA-512/224 hasher has been
/// fed nothing.
#[verifier::external_body]
fn state_new_sha512_224() -> (s: HasherState)
    ensures
        state_alg(s) == HashAlgorithm::Sha512_224,
        state_fed(s) == Seq::<u8>::empty(),
{
    HasherState {
        tag: HashAlgorithm::Sha512_224,
        rust_crypto: Some(Box::new(sha2::Sha512_224::new())),
        blake3: None,
    }
}

/// Relies on `sha2::Sha512_256::new`: a fresh SHA-512/256 hasher has been
/// fed nothing.
#[verifier::external_body]
fn state_new_sha512_256() -> (s: HasherState)
    ensures
        state_alg(s) == HashAlgorithm::Sha512_256,
        state_fed(s) == Seq::<u8>::empty(),
{
    HasherState {
        tag: HashAlgorithm::Sha512_256,
        rust_crypto: Some(Box::new(sha2::Sha512_256::new())),
        blake3: None,
    }
}

/// Relies on `sha3::Sha3_224::new`: a fresh SHA3-224 hasher has been fed
/// nothing.
#[verifier::external_body]
fn state_new_sha3_224() -> (s: HasherState)
    ensures
        state_alg(s) == HashAlgorithm::Sha3_224,
        state_fed(s) == Seq::<u8>::empty(),
{
    HasherState {
        tag: HashAlgorithm::Sha3_224,
        rust_crypto: Some(Box::new(sha3::Sha3_224::new())),
        blake3: None,
    }
}

/// Relies on `sha3::Sha3_256::new`: a fresh SHA3-256 hasher has been fed
/// nothing.
#[verifier::external_body]
fn state_new_sha3_256() -> (s: HasherState)
    ensures
        state_alg(s) == HashAlgorithm::Sha3_256,
        state_fed(s) == Seq::<u8>::empty(),
{
    HasherState {
        tag: HashAlgorithm::Sha3_256,
        rust_crypto: Some(Box::new(sha3::Sha3_256::new())),
        blake3: None,
    }
}

/// Relies on `sha3::Sha3_384::new`: a fresh SHA3-384 hasher has been fed
/// nothing.
#[verifier::external_body]
fn state_new_sha3_384() -> (s: HasherState)
    ensures
        state_alg(s) == HashAlgorithm::Sha3_384,
        state_fed(s) == Seq::<u8>::empty(),
{
    HasherState {
        tag: HashAlgorithm::Sha3_384,
        rust_crypto: Some(Box::new(sha3::Sha3_384::new())),
        blake3: None,
    }
}

/// Relies on `sha3::Sha3_512::new`: a fresh SHA3-512 hasher has been fed
/// nothing.
#[verifier::external_body]
fn state_new_sha3_512() -> (s: HasherState)
    ensures
        state_alg(s) == HashAlgorithm::Sha3_512,
        state_fed(s) == Seq::<u8>::empty(),
{
    HasherState {
        tag: HashAlgorithm::Sha3_512,
        rust_crypto: Some(Box::new(sha3::Sha3_512::new())),
        blake3: None,
    }
}

/// Relies on `blake3::Hasher::new`: a fresh BLAKE3 hasher has been fed
/// nothing.
#[verifier::external_body]
fn state_new_blake3() -> (s: HasherState)
    ensures
        state_alg(s) == HashAlgorithm::Blake3,
        state_fed(s) == Seq::<u8>::empty(),
{
    HasherState {
        tag: HashAlgorithm::Blake3,
        rust_crypto: None,
        blake3: Some(blake3::Hasher::new()),
    }
}

/// A fresh incremental hasher state for the chosen algorithm.
pub fn state_new(alg: HashAlgorithm) -> (s: HasherState)
    ensures
        state_alg(s) == alg,
        state_fed(s) == Seq::<u8>::empty(),
{
    match alg {
        HashAlgorithm::Md5 => state_new_md5(),
        HashAlgorithm::Sha1 => state_new_sha1(),
        HashAlgorithm::Sha224 => state_new_sha224(),
        HashAlgorithm::Sha256 => state_new_sha256(),
        HashAlgorithm::Sha384 => state_new_sha384(),
        HashAlgorithm::Sha512 => state_new_sha512(),
        HashAlgorithm::Sha512_224 => state_new_sha512_224(),
        HashAlgorithm::Sha512_256 => state_new_sha512_256(),
        HashAlgorithm::Sha3_224 => state_new_sha3_224(),
        HashAlgorithm::Sha3_256 => state_new_sha3_256(),
        HashAlgorithm::Sha3_384 => state_new_sha3_384(),
        HashAlgorithm::Sha3_512 => state_new_sha3_512(),
        HashAlgorithm::Blake3 => state_new_blake3(),
    }
}

/// Relies on the algorithm tag stored beside the hasher at construction:
/// returns the algorithm this state digests with.
#[verifier::external_body]
pub fn state_algorithm(s: &HasherState) -> (a: HashAlgorithm)
    ensures
        a == state_alg(*s),
{
    s.tag
}

/// Relies on `DynDigest::update` (crate `digest`) and `blake3::Hasher::update`:
/// feeding a chunk appends it to the hasher's input and changes nothing else.
#[verifier::external_body]
pub fn state_update(s: &mut HasherState, chunk: &[u8])
    ensures
        state_alg(*final(s)) == state_alg(*old(s)),
        state_fed(*final(s)) == state_fed(*old(s)) + chunk@,
{
    if let Some(h) = s.rust_crypto.as_mut() {
        h.update(chunk);
    }
    if let Some(h) = s.blake3.as_mut() {
        h.update(chunk);
    }
}

/// Relies on `DynDigest::finalize_reset` (crate `digest`) and on
/// `blake3::Hasher::finalize` followed by `blake3::Hasher::reset`: the digest
/// is over exactly the bytes fed since the last reset, and the hasher returns
/// to its initial state.
#[verifier::external_body]
pub fn state_finalize_reset(s: &mut HasherState) -> (r: Vec<u8>)
    ensures
        r@ == digest_of(state_alg(*old(s)), state_fed(*old(s))),
        r@.len() == state_alg(*old(s)).spec_digest_len(),
        state_alg(*final(s)) == state_alg(*old(s)),
        state_fed(*final(s)) == Seq::<u8>::empty(),
{
    if let Some(h) = s.rust_crypto.as_mut() {
        return h.finalize_reset().to_vec();
    }
    if let Some(h) = s.blake3.as_mut() {
        let out = h.finalize().as_bytes().to_vec();
        h.reset();
        return out;
    }
    Vec::new()
}

} // verus!
