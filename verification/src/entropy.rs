//! Deterministic entropy provider.
//!
//! Sandboxed hosts expose no operating-system entropy source, yet the proving
//! libraries abort when a request for random bytes fails. The provider below
//! answers every such request from a pseudo-random generator seeded with a
//! fixed value, so that repeated runs draw identical byte streams and every
//! proof is reproducible. The price is documented openly: a provider that
//! reseeds on each request hands out the same leading bytes again and again,
//! so none of the bytes are secret or fresh.

use vstd::prelude::*;

verus! {

/// Seed used by the demonstrations when no other seed is configured.
pub const DEFAULT_SEED: u64 = 123;

/// The byte stream that the standard seeded generator produces: the first
/// `n` bytes drawn from a generator freshly seeded with `seed`. The stream
/// is a fixed function of the seed alone, which is exactly what the
/// demonstrations rely on; its concrete bytes are the generator's business.
pub uninterp spec fn seeded_stream(seed: u64, n: nat) -> Seq<u8>;

/// Relies on `rand::rngs::StdRng::seed_from_u64` and
/// `rand_core::RngCore::fill_bytes`: seeding is a pure function of the
/// 64-bit seed, and filling writes the generator's next bytes over the whole
/// buffer. The bytes drawn from a freshly seeded generator therefore depend
/// on the seed and the requested length alone, named here `seeded_stream`;
/// and because one fill copies the generator's words into the buffer in
/// order, truncating only at the end, a shorter request returns a
/// byte-for-byte prefix of a longer one from the same seed.
#[verifier::external_body]
fn fill_from_fresh_generator(seed: u64, buf: &mut Vec<u8>)
    ensures
        final(buf)@ == seeded_stream(seed, old(buf)@.len()),
        final(buf)@.len() == old(buf)@.len(),
        forall|k: nat| k <= old(buf)@.len()
            ==> #[trigger] seeded_stream(seed, k) == final(buf)@.subrange(0, k as int),
{
    let mut rng = <rand::rngs::StdRng as rand::SeedableRng>::seed_from_u64(seed);
    rand::RngCore::fill_bytes(&mut rng, buf.as_mut_slice());
}

/// A process-wide substitute for the missing host entropy source.
///
/// Every fill request constructs a fresh generator from the configured seed,
/// mirroring the installed provider's observed behaviour: reproducible, and
/// repetitive across calls of equal size.
pub struct EntropyProvider {
    /// The fixed seed; configured once, never rotated.
    pub seed: u64,
}

impl EntropyProvider {
    /// A provider drawing from the given seed.
    pub fn new(seed: u64) -> (p: EntropyProvider)
        ensures
            p.seed == seed,
    {
        EntropyProvider { seed }
    }

    /// Overwrite the whole buffer with the leading bytes of the seeded
    /// stream. Every byte of the buffer is assigned; the length is kept;
    /// the result depends on the seed and the length alone, never on the
    /// buffer's previous contents. The stream is drawn sequentially, so
    /// any shorter fill under this seed is a prefix of this one.
    pub fn fill(&self, buf: &mut Vec<u8>)
        ensures
            final(buf)@ == seeded_stream(self.seed, old(buf)@.len()),
            final(buf)@.len() == old(buf)@.len(),
            forall|k: nat| k <= old(buf)@.len()
                ==> #[trigger] seeded_stream(self.seed, k) == final(buf)@.subrange(0, k as int),
    {
        fill_from_fresh_generator(self.seed, buf);
    }

    /// A freshly filled buffer of `n` bytes: `n` zero bytes handed to
    /// [`Self::fill`].
    pub fn filled(&self, n: usize) -> (out: Vec<u8>)
        ensures
            out@ == seeded_stream(self.seed, n as nat),
            out@.len() == n,
            forall|k: nat| k <= n
                ==> #[trigger] seeded_stream(self.seed, k) == out@.subrange(0, k as int),
    {
        let mut buf: Vec<u8> = Vec::new();
        buf.resize(n, 0u8);
        self.fill(&mut buf);
        buf
    }
}

/// Determinism: the bytes a fill hands back are a function of the seed and
/// the requested length alone, so two fills of equal length under equal
/// seeds agree byte for byte — across calls, processes and runs.
pub proof fn lemma_fill_deterministic(seed: u64, n: nat, out1: Seq<u8>, out2: Seq<u8>)
    requires
        out1 == seeded_stream(seed, n),
        out2 == seeded_stream(seed, n),
    ensures
        out1 == out2,
{
}

/// Repetition artifact: a provider that reseeds freshly on every request
/// replays the same leading bytes, so two consecutive equal-sized fills
/// from one provider return identical sequences. This documents the known
/// limitation of the fixed-seed design; it is the opposite of what a secure
/// entropy source would guarantee.
pub proof fn lemma_repeated_fill_identical(p: EntropyProvider, n: nat, first: Seq<u8>, second: Seq<u8>)
    requires
        first == seeded_stream(p.seed, n),
        second == seeded_stream(p.seed, n),
    ensures
        first == second,
{
}

} // verus!
