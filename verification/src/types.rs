//! Values that the generation engine hands to the library.

use vstd::prelude::*;

verus! {

/// The result of a single generation step, as the engine reports it to a callback.
#[derive(Clone, Debug)]
pub struct GenerationStepResult {
    /// The decoding step.
    pub step: usize,
    /// The batch index.
    pub batch_id: usize,
    /// ID of the generated token.
    pub token_id: usize,
    /// Index of the hypothesis in the batch.
    pub hypothesis_id: usize,
    /// String value of the generated token.
    pub token: String,
    /// Whether `log_prob` holds a log probability.
    pub has_log_prob: bool,
    /// Log probability of the token, as the bit pattern of an IEEE 754 single-precision number.
    pub log_prob: u32,
    /// Whether this step is the last decoding step for this batch.
    pub is_last: bool,
}

} // verus!
