//! The streaming digest engine: a stateful accumulator that is fed a file's
//! bytes chunk by chunk in bounded memory, then finalized to the digest and
//! reset so the same instance can serve the next file.

use vstd::prelude::*;

use crate::algorithm::HashAlgorithm;
use crate::hashes::digest_of;
use crate::stream::{
    state_alg, state_algorithm, state_fed, state_finalize_reset, state_new, state_update,
    HasherState,
};

verus! {

/// A reusable digest accumulator for one chosen algorithm.
///
/// The engine's model is the pair of its algorithm and the sequence of bytes
/// fed since construction or the last reset; the digest it finalizes to is a
/// function of exactly that pair. Each chunk is handed straight to the
/// underlying incremental hasher, so the engine's memory does not grow with
/// the input.
pub struct DigestEngine {
    state: HasherState,
}

impl DigestEngine {
    /// The algorithm this engine digests with.
    pub closed spec fn alg(self) -> HashAlgorithm {
        state_alg(self.state)
    }

    /// The bytes fed since construction or the last reset.
    pub closed spec fn fed(self) -> Seq<u8> {
        state_fed(self.state)
    }

    /// A fresh engine for the chosen algorithm, with nothing fed yet.
    pub fn new(algorithm: HashAlgorithm) -> (e: Self)
        ensures
            e.alg() == algorithm,
            e.fed() == Seq::<u8>::empty(),
    {
        DigestEngine { state: state_new(algorithm) }
    }

    /// The algorithm this engine was constructed with.
    pub fn algorithm(&self) -> (a: HashAlgorithm)
        ensures
            a == self.alg(),
    {
        state_algorithm(&self.state)
    }

    /// Appends a chunk to the bytes the engine has accumulated.
    pub fn update(&mut self, chunk: &[u8])
        ensures
            final(self).alg() == old(self).alg(),
            final(self).fed() == old(self).fed() + chunk@,
    {
        state_update(&mut self.state, chunk);
    }

    /// Emits the digest over everything fed since the last reset, and returns
    /// the engine to its initial state, ready for an independent next input.
    pub fn finalize_and_reset(&mut self) -> (digest: Vec<u8>)
        ensures
            digest@ == digest_of(old(self).alg(), old(self).fed()),
            digest@.len() == old(self).alg().spec_digest_len(),
            final(self).alg() == old(self).alg(),
            final(self).fed() == Seq::<u8>::empty(),
    {
        state_finalize_reset(&mut self.state)
    }
}

/// Chunking invariance: feeding bytes in two chunks accumulates the same
/// sequence as feeding their concatenation in one call, so an engine
/// finalizes to the same digest either way.
pub proof fn lemma_chunked_feed_same_digest(
    alg: HashAlgorithm,
    fed: Seq<u8>,
    c1: Seq<u8>,
    c2: Seq<u8>,
)
    ensures
        digest_of(alg, (fed + c1) + c2) == digest_of(alg, fed + (c1 + c2)),
{
    assert((fed + c1) + c2 =~= fed + (c1 + c2));
}

/// Reset independence: an engine that was just constructed or reset has
/// accumulated nothing, so feeding it a file's bytes finalizes to the digest
/// of that file alone, whatever the engine digested before.
pub proof fn lemma_reset_independence(alg: HashAlgorithm, data: Seq<u8>)
    ensures
        digest_of(alg, Seq::<u8>::empty() + data) == digest_of(alg, data),
{
    assert(Seq::<u8>::empty() + data =~= data);
}

} // verus!
