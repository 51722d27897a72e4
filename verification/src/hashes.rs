//! One-shot digest computation. Each supported algorithm is delegated to the
//! crate that implements it; the digest each one returns is a fixed function
//! of the input bytes, named here by an abstract spec function per algorithm.

use vstd::prelude::*;

use crate::algorithm::HashAlgorithm;
use md5::Digest;

verus! {

pub uninterp spec fn md5_of(data: Seq<u8>) -> Seq<u8>;

pub uninterp spec fn sha1_of(data: Seq<u8>) -> Seq<u8>;

pub uninterp spec fn sha224_of(data: Seq<u8>) -> Seq<u8>;

pub uninterp spec fn sha256_of(data: Seq<u8>) -> Seq<u8>;

pub uninterp spec fn sha384_of(data: Seq<u8>) -> Seq<u8>;

pub uninterp spec fn sha512_of(data: Seq<u8>) -> Seq<u8>;

pub uninterp spec fn sha512_224_of(data: Seq<u8>) -> Seq<u8>;

pub uninterp spec fn sha512_256_of(data: Seq<u8>) -> Seq<u8>;

pub uninterp spec fn sha3_224_of(data: Seq<u8>) -> Seq<u8>;

pub uninterp spec fn sha3_256_of(data: Seq<u8>) -> Seq<u8>;

pub uninterp spec fn sha3_384_of(data: Seq<u8>) -> Seq<u8>;

pub uninterp spec fn sha3_512_of(data: Seq<u8>) -> Seq<u8>;

pub uninterp spec fn blake3_of(data: Seq<u8>) -> Seq<u8>;

/// The digest the chosen algorithm produces over the given bytes.
pub open spec fn digest_of(alg: HashAlgorithm, data: Seq<u8>) -> Seq<u8> {
    match alg {
        HashAlgorithm::Md5 => md5_of(data),
        HashAlgorithm::Sha1 => sha1_of(data),
        HashAlgorithm::Sha224 => sha224_of(data),
        HashAlgorithm::Sha256 => sha256_of(data),
        HashAlgorithm::Sha384 => sha384_of(data),
        HashAlgorithm::Sha512 => sha512_of(data),
        HashAlgorithm::Sha512_224 => sha512_224_of(data),
        HashAlgorithm::Sha512_256 => sha512_256_of(data),
        HashAlgorithm::Sha3_224 => sha3_224_of(data),
        HashAlgorithm::Sha3_256 => sha3_256_of(data),
        HashAlgorithm::Sha3_384 => sha3_384_of(data),
        HashAlgorithm::Sha3_512 => sha3_512_of(data),
        HashAlgorithm::Blake3 => blake3_of(data),
    }
}

/// Relies on `md5::Md5::digest` (crate `md-5`): the MD5 digest of the input
/// bytes alone, 16 bytes long.
#[verifier::external_body]
fn md5_digest(data: &[u8]) -> (r: Vec<u8>)
    ensures
        r@ == md5_of(data@),
        r@.len() == 16,
{
    md5::Md5::digest(data).to_vec()
}

/// Relies on `sha1::Sha1::digest`: the SHA-1 digest of the input bytes alone,
/// 20 bytes long.
#[verifier::external_body]
fn sha1_digest(data: &[u8]) -> (r: Vec<u8>)
    ensures
        r@ == sha1_of(data@),
        r@.len() == 20,
{
    sha1::Sha1::digest(data).to_vec()
}

/// Relies on `sha2::Sha224::digest`: the SHA-224 digest of the input bytes
/// alone, 28 bytes long.
#[verifier::external_body]
fn sha224_digest(data: &[u8]) -> (r: Vec<u8>)
    ensures
        r@ == sha224_of(data@),
        r@.len() == 28,
{
    sha2::Sha224::digest(data).to_vec()
}

/// Relies on `sha2::Sha256::digest`: the SHA-256 digest of the input bytes
/// alone, 32 bytes long.
#[verifier::external_body]
fn sha256_digest(data: &[u8]) -> (r: Vec<u8>)
    ensures
        r@ == sha256_of(data@),
        r@.len() == 32,
{
    sha2::Sha256::digest(data).to_vec()
}

/// Relies on `sha2::Sha384::digest`: the SHA-384 digest of the input bytes
/// alone, 48 bytes long.
#[verifier::external_body]
fn sha384_digest(data: &[u8]) -> (r: Vec<u8>)
    ensures
        r@ == sha384_of(data@),
        r@.len() == 48,
{
    sha2::Sha384::digest(data).to_vec()
}

/// Relies on `sha2::Sha512::digest`: the SHA-512 digest of the input bytes
/// alone, 64 bytes long.
#[verifier::external_body]
fn sha512_digest(data: &[u8]) -> (r: Vec<u8>)
    ensures
        r@ == sha512_of(data@),
        r@.len() == 64,
{
    sha2::Sha512::digest(data).to_vec()
}

/// Relies on `sha2::Sha512_224::digest`: the SHA-512/224 digest of the input
/// bytes alone, 28 bytes long.
#[verifier::external_body]
fn sha512_224_digest(data: &[u8]) -> (r: Vec<u8>)
    ensures
        r@ == sha512_224_of(data@),
        r@.len() == 28,
{
    sha2::Sha512_224::digest(data).to_vec()
}

/// Relies on `sha2::Sha512_256::digest`: the SHA-512/256 digest of the input
/// bytes alone, 32 bytes long.
#[verifier::external_body]
fn sha512_256_digest(data: &[u8]) -> (r: Vec<u8>)
    ensures
        r@ == sha512_256_of(data@),
        r@.len() == 32,
{
    sha2::Sha512_256::digest(data).to_vec()
}

/// Relies on `sha3::Sha3_224::digest`: the SHA3-224 digest of the input bytes
/// alone, 28 bytes long.
#[verifier::external_body]
fn sha3_224_digest(data: &[u8]) -> (r: Vec<u8>)
    ensures
        r@ == sha3_224_of(data@),
        r@.len() == 28,
{
    sha3::Sha3_224::digest(data).to_vec()
}

/// Relies on `sha3::Sha3_256::digest`: the SHA3-256 digest of the input bytes
/// alone, 32 bytes long.
#[verifier::external_body]
fn sha3_256_digest(data: &[u8]) -> (r: Vec<u8>)
    ensures
        r@ == sha3_256_of(data@),
        r@.len() == 32,
{
    sha3::Sha3_256::digest(data).to_vec()
}

/// Relies on `sha3::Sha3_384::digest`: the SHA3-384 digest of the input bytes
/// alone, 48 bytes long.
#[verifier::external_body]
fn sha3_384_digest(data: &[u8]) -> (r: Vec<u8>)
    ensures
        r@ == sha3_384_of(data@),
        r@.len() == 48,
{
    sha3::Sha3_384::digest(data).to_vec()
}

/// Relies on `sha3::Sha3_512::digest`: the SHA3-512 digest of the input bytes
/// alone, 64 bytes long.
#[verifier::external_body]
fn sha3_512_digest(data: &[u8]) -> (r: Vec<u8>)
    ensures
        r@ == sha3_512_of(data@),
        r@.len() == 64,
{
    sha3::Sha3_512::digest(data).to_vec()
}

/// Relies on `blake3::hash`: the BLAKE3 digest of the input bytes alone,
/// 32 bytes long.
#[verifier::external_body]
fn blake3_digest(data: &[u8]) -> (r: Vec<u8>)
    ensures
        r@ == blake3_of(data@),
        r@.len() == 32,
{
    blake3::hash(data).as_bytes().to_vec()
}

/// Computes the digest of `data` under the chosen algorithm in one shot.
pub fn digest_bytes(alg: HashAlgorithm, data: &[u8]) -> (r: Vec<u8>)
    ensures
        r@ == digest_of(alg, data@),
        r@.len() == alg.spec_digest_len(),
{
    match alg {
        HashAlgorithm::Md5 => md5_digest(data),
        HashAlgorithm::Sha1 => sha1_digest(data),
        HashAlgorithm::Sha224 => sha224_digest(data),
        HashAlgorithm::Sha256 => sha256_digest(data),
        HashAlgorithm::Sha384 => sha384_digest(data),
        HashAlgorithm::Sha512 => sha512_digest(data),
        HashAlgorithm::Sha512_224 => sha512_224_digest(data),
        HashAlgorithm::Sha512_256 => sha512_256_digest(data),
        HashAlgorithm::Sha3_224 => sha3_224_digest(data),
        HashAlgorithm::Sha3_256 => sha3_256_digest(data),
        HashAlgorithm::Sha3_384 => sha3_384_digest(data),
        HashAlgorithm::Sha3_512 => sha3_512_digest(data),
        HashAlgorithm::Blake3 => blake3_digest(data),
    }
}

} // verus!
