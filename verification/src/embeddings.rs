//! Semantic-embedding shells. The embedding vectors themselves are
//! floating-point and are computed outside the verified core; these types
//! carry the configuration for that collaborator.

use vstd::prelude::*;

verus! {

/// Produces embedding vectors for tracks; the numeric work happens in the
/// floating-point collaborator around this crate.
pub struct EmbeddingGenerator {}

impl EmbeddingGenerator {
    /// A generator; it carries no state.
    pub fn new() -> (r: Self) {
        EmbeddingGenerator {  }
    }
}

impl Default for EmbeddingGenerator {
    /// Same as `EmbeddingGenerator::new`.
    fn default() -> (r: Self) {
        EmbeddingGenerator::new()
    }
}

/// Matches tracks by embedding similarity; the similarity arithmetic
/// happens in the floating-point collaborator around this crate.
pub struct SemanticMatcher {
    pub generator: EmbeddingGenerator,
}

impl SemanticMatcher {
    /// A matcher over a fresh generator.
    pub fn new() -> (r: Self) {
        SemanticMatcher { generator: EmbeddingGenerator::new() }
    }
}

impl Default for SemanticMatcher {
    /// Same as `SemanticMatcher::new`.
    fn default() -> (r: Self) {
        SemanticMatcher::new()
    }
}

} // verus!
