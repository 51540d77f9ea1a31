//! Reproducible zero-knowledge-proof demonstrations.
//!
//! Hosts that expose no operating-system entropy source still have to feed
//! randomness-hungry proving libraries. This crate's core is a deterministic
//! entropy provider: a fixed seed drives a pseudo-random generator, so every
//! proving run is reproducible. Around it stand the small, fully specified
//! pieces of the demonstration circuits: the constraint relations they
//! enforce, the field arithmetic their expected outputs need, and drivers
//! that run the outside proving libraries through narrow trusted calls.

pub mod entropy;
pub mod goldilocks;
pub mod circuits;
pub mod range_proof;
