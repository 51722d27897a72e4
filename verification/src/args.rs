//! The arguments of a hashing run: the chosen algorithm, if any, and the raw
//! file paths, in the order they were given.

use vstd::prelude::*;

use crate::algorithm::HashAlgorithm;

verus! {

/// What a hashing run was asked to do.
pub struct HashArgs {
    /// The algorithm picked on the command line, or `None` for the default.
    pub algorithm: Option<HashAlgorithm>,
    /// The file paths to hash, in the order given.
    pub files: Vec<String>,
}

impl HashArgs {
    /// The algorithm the run digests with: the one picked, or SHA-256 when
    /// none was.
    pub open spec fn chosen_algorithm(self) -> HashAlgorithm {
        match self.algorithm {
            Some(a) => a,
            None => HashAlgorithm::Sha256,
        }
    }

    /// Resolves the algorithm choice, falling back to the SHA-256 default.
    pub fn resolve_algorithm(&self) -> (a: HashAlgorithm)
        ensures
            a == self.chosen_algorithm(),
    {
        match self.algorithm {
            Some(a) => a,
            None => HashAlgorithm::Sha256,
        }
    }
}

} // verus!
