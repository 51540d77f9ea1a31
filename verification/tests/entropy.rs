//! Behaviour of the deterministic entropy provider.

use zkp_backend::entropy::{EntropyProvider, DEFAULT_SEED};

#[test]
fn deterministic_across_providers() {
    let first = EntropyProvider::new(123).filled(64);
    let second = EntropyProvider::new(123).filled(64);
    assert_eq!(first, second);
}

#[test]
fn deterministic_across_request_sequences() {
    let p1 = EntropyProvider::new(DEFAULT_SEED);
    let p2 = EntropyProvider::new(DEFAULT_SEED);
    for n in [1usize, 5, 32, 100] {
        assert_eq!(p1.filled(n), p2.filled(n));
    }
}

#[test]
fn fill_overwrites_every_byte() {
    let provider = EntropyProvider::new(123);
    let mut patterned = vec![0xAAu8; 100];
    provider.fill(&mut patterned);
    let mut zeroed = vec![0u8; 100];
    provider.fill(&mut zeroed);
    // The previous contents differed byte for byte; equal results mean the
    // generator assigned every position.
    assert_eq!(patterned, zeroed);
    assert_eq!(patterned.len(), 100);
}

#[test]
fn fill_is_not_identity() {
    let provider = EntropyProvider::new(123);
    let out = provider.filled(32);
    assert_eq!(out.len(), 32);
    assert_ne!(out, vec![0u8; 32]);
}

#[test]
fn repeated_fills_replay_the_same_bytes() {
    let provider = EntropyProvider::new(123);
    let first = provider.filled(48);
    let second = provider.filled(48);
    // The provider reseeds freshly on every request, so consecutive
    // equal-sized fills replay the stream from the start: the documented
    // repetition artifact of the fixed-seed design.
    assert_eq!(first, second);
}

#[test]
fn shorter_fill_is_prefix_of_longer_fill() {
    let provider = EntropyProvider::new(123);
    let short = provider.filled(16);
    let long = provider.filled(64);
    // The stream is drawn sequentially from the start on every request,
    // so a shorter fill is a byte-for-byte prefix of a longer one.
    assert_eq!(short[..], long[..16]);
    let one = provider.filled(1);
    assert_eq!(one[0], long[0]);
}

#[test]
fn zero_length_fill_succeeds() {
    let provider = EntropyProvider::new(123);
    assert_eq!(provider.filled(0), Vec::<u8>::new());
}

#[test]
fn different_seeds_give_different_streams() {
    let a = EntropyProvider::new(123).filled(32);
    let b = EntropyProvider::new(124).filled(32);
    assert_ne!(a, b);
}

#[test]
fn default_seed_matches_the_installed_provider() {
    assert_eq!(DEFAULT_SEED, 123);
    let provider = EntropyProvider::new(DEFAULT_SEED);
    assert_eq!(provider.seed, 123);
}
