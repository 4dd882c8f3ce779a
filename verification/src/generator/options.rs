//! The options of a generation request.

use vstd::prelude::*;

use crate::config::BatchType;

verus! {

/// Bit pattern of the IEEE 754 single-precision number 1.
pub const ONE_BITS: u32 = 0x3F80_0000;

/// Bit pattern of the IEEE 754 single-precision number +0.
pub const ZERO_BITS: u32 = 0;

/// The set of generation options.
///
/// The real-valued options are held as the bit patterns of IEEE 754 single-precision numbers:
/// the library only hands them on to the engine.
#[derive(Clone, Debug)]
pub struct GenerationOptions<T, U> {
    /// Beam size to use for beam search (set 1 to run greedy search).
    pub beam_size: usize,
    /// Beam search patience factor (bit pattern). The decoding continues until
    /// beam_size*patience hypotheses are finished.
    pub patience: u32,
    /// Exponential penalty applied to the length during beam search (bit pattern).
    pub length_penalty: u32,
    /// Penalty applied to the score of previously generated tokens (bit pattern; above 1
    /// penalizes).
    pub repetition_penalty: u32,
    /// Prevent repetitions of ngrams with this size (set 0 to disable).
    pub no_repeat_ngram_size: usize,
    /// Disable the generation of the unknown token.
    pub disable_unk: bool,
    /// Disable the generation of some sequences of tokens.
    pub suppress_sequences: Vec<Vec<T>>,
    /// Include the end token in the result.
    pub return_end_token: bool,
    /// Length constraints.
    pub max_length: usize,
    /// Length constraints.
    pub min_length: usize,
    /// Randomly sample from the top K candidates (set 0 to sample from the full output
    /// distribution).
    pub sampling_topk: usize,
    /// Keep the most probable tokens whose cumulative probability exceeds this value (bit
    /// pattern).
    pub sampling_topp: u32,
    /// High temperature increase randomness (bit pattern).
    pub sampling_temperature: u32,
    /// Number of hypotheses to include in the result.
    pub num_hypotheses: usize,
    /// Include scores in the result.
    pub return_scores: bool,
    /// Return alternatives at the first unconstrained decoding position.
    pub return_alternatives: bool,
    /// Minimum probability to expand an alternative (bit pattern).
    pub min_alternative_expansion_prob: u32,
    /// The static prompt will prefix all inputs for this model.
    pub static_prompt: Vec<U>,
    /// Cache the model state after the static prompt and reuse it for future runs using the
    /// same static prompt.
    pub cache_static_prompt: bool,
    /// Include the input tokens in the generation result.
    pub include_prompt_in_result: bool,
    /// The maximum batch size. If the number of inputs is greater than `max_batch_size`, the
    /// inputs are sorted by length and split by chunks of `max_batch_size` examples so that the
    /// number of padding positions is minimized.
    pub max_batch_size: usize,
    /// Whether `max_batch_size` is the number of `examples` or `tokens`.
    pub batch_type: BatchType,
}

impl Default for GenerationOptions<String, String> {
    /// Greedy search of at most 512 tokens, with neutral penalties and sampling, and no
    /// suppressed sequences or static prompt.
    fn default() -> (options: Self)
        ensures
            options.beam_size == 1,
            options.patience == ONE_BITS,
            options.length_penalty == ONE_BITS,
            options.repetition_penalty == ONE_BITS,
            options.no_repeat_ngram_size == 0,
            !options.disable_unk,
            options.suppress_sequences@.len() == 0,
            !options.return_end_token,
            options.max_length == 512,
            options.min_length == 0,
            options.sampling_topk == 1,
            options.sampling_topp == ONE_BITS,
            options.sampling_temperature == ONE_BITS,
            options.num_hypotheses == 1,
            !options.return_scores,
            !options.return_alternatives,
            options.min_alternative_expansion_prob == ZERO_BITS,
            options.static_prompt@.len() == 0,
            options.cache_static_prompt,
            options.include_prompt_in_result,
            options.max_batch_size == 0,
            options.batch_type == BatchType::Examples,
    {
        GenerationOptions {
            beam_size: 1,
            patience: ONE_BITS,
            length_penalty: ONE_BITS,
            repetition_penalty: ONE_BITS,
            no_repeat_ngram_size: 0,
            disable_unk: false,
            suppress_sequences: Vec::new(),
            return_end_token: false,
            max_length: 512,
            min_length: 0,
            sampling_topk: 1,
            sampling_topp: ONE_BITS,
            sampling_temperature: ONE_BITS,
            num_hypotheses: 1,
            return_scores: false,
            return_alternatives: false,
            min_alternative_expansion_prob: ZERO_BITS,
            static_prompt: Vec::new(),
            cache_static_prompt: true,
            include_prompt_in_result: true,
            max_batch_size: 0,
            batch_type: BatchType::default(),
        }
    }
}

} // verus!
