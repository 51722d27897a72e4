//! The set of digest algorithms the library can run, and the label each one
//! carries in the report line.

use vstd::prelude::*;

verus! {

/// One of the supported digest algorithms.
#[allow(non_camel_case_types)]
#[derive(Copy, Clone, Debug, PartialEq, Eq, Structural)]
pub enum HashAlgorithm {
    Md5,
    Sha1,
    Sha224,
    Sha256,
    Sha384,
    Sha512,
    Sha512_224,
    Sha512_256,
    Sha3_224,
    Sha3_256,
    Sha3_384,
    Sha3_512,
    Blake3,
}

impl HashAlgorithm {
    /// The display label of the algorithm, as a sequence of characters.
    pub open spec fn spec_label(self) -> Seq<char> {
        match self {
            HashAlgorithm::Md5 => "MD5"@,
            HashAlgorithm::Sha1 => "SHA-1"@,
            HashAlgorithm::Sha224 => "SHA-224"@,
            HashAlgorithm::Sha256 => "SHA-256"@,
            HashAlgorithm::Sha384 => "SHA-384"@,
            HashAlgorithm::Sha512 => "SHA-512"@,
            HashAlgorithm::Sha512_224 => "SHA-512/224"@,
            HashAlgorithm::Sha512_256 => "SHA-512/256"@,
            HashAlgorithm::Sha3_224 => "SHA3-224"@,
            HashAlgorithm::Sha3_256 => "SHA3-256"@,
            HashAlgorithm::Sha3_384 => "SHA3-384"@,
            HashAlgorithm::Sha3_512 => "SHA3-512"@,
            HashAlgorithm::Blake3 => "BLAKE3"@,
        }
    }

    /// The length in bytes of a digest this algorithm produces.
    pub open spec fn spec_digest_len(self) -> nat {
        match self {
            HashAlgorithm::Md5 => 16,
            HashAlgorithm::Sha1 => 20,
            HashAlgorithm::Sha224 => 28,
            HashAlgorithm::Sha256 => 32,
            HashAlgorithm::Sha384 => 48,
            HashAlgorithm::Sha512 => 64,
            HashAlgorithm::Sha512_224 => 28,
            HashAlgorithm::Sha512_256 => 32,
            HashAlgorithm::Sha3_224 => 28,
            HashAlgorithm::Sha3_256 => 32,
            HashAlgorithm::Sha3_384 => 48,
            HashAlgorithm::Sha3_512 => 64,
            HashAlgorithm::Blake3 => 32,
        }
    }

    /// The display label of the algorithm.
    pub fn label(&self) -> (r: &'static str)
        ensures
            r@ == self.spec_label(),
    {
        match self {
            HashAlgorithm::Md5 => "MD5",
            HashAlgorithm::Sha1 => "SHA-1",
            HashAlgorithm::Sha224 => "SHA-224",
            HashAlgorithm::Sha256 => "SHA-256",
            HashAlgorithm::Sha384 => "SHA-384",
            HashAlgorithm::Sha512 => "SHA-512",
            HashAlgorithm::Sha512_224 => "SHA-512/224",
            HashAlgorithm::Sha512_256 => "SHA-512/256",
            HashAlgorithm::Sha3_224 => "SHA3-224",
            HashAlgorithm::Sha3_256 => "SHA3-256",
            HashAlgorithm::Sha3_384 => "SHA3-384",
            HashAlgorithm::Sha3_512 => "SHA3-512",
            HashAlgorithm::Blake3 => "BLAKE3",
        }
    }
}

} // verus!
