//! The result of generating from one batch entry.

use vstd::prelude::*;

verus! {

/// A generation result.
#[derive(Clone, Debug)]
pub struct GenerationResult {
    /// Generated sequences of tokens.
    pub sequences: Vec<Vec<String>>,
    /// Generated sequences of token IDs.
    pub sequences_ids: Vec<Vec<usize>>,
    /// Score of each sequence, as bit patterns of IEEE 754 single-precision numbers (empty if
    /// `return_scores` was disabled).
    pub scores: Vec<u32>,
}

impl GenerationResult {
    /// Returns the number of sequences.
    pub fn num_sequences(&self) -> (n: usize)
        ensures
            n == self.sequences@.len(),
    {
        self.sequences.len()
    }

    /// Returns true if this result has scores.
    pub fn has_scores(&self) -> (b: bool)
        ensures
            b <==> self.scores@.len() > 0,
    {
        self.scores.len() != 0
    }
}

} // verus!
