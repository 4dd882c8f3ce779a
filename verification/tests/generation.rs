use ct2rs::config::BatchType;
use ct2rs::generator::{
    execute_generation_callback, GenerationCallbackBox, GenerationOptions, GenerationResult,
    GenerationStepResult, ONE_BITS, ZERO_BITS,
};

fn step(n: usize, token: &str, is_last: bool) -> GenerationStepResult {
    GenerationStepResult {
        step: n,
        batch_id: 0,
        token_id: 7 + n,
        hypothesis_id: 0,
        token: token.to_string(),
        has_log_prob: true,
        log_prob: (-0.5f32).to_bits(),
        is_last,
    }
}

#[test]
fn default_generation_options() {
    let options: GenerationOptions<String, String> = GenerationOptions::default();

    assert_eq!(options.beam_size, 1);
    assert_eq!(f32::from_bits(options.patience), 1.);
    assert_eq!(f32::from_bits(options.length_penalty), 1.);
    assert_eq!(f32::from_bits(options.repetition_penalty), 1.);
    assert_eq!(options.no_repeat_ngram_size, 0);
    assert!(!options.disable_unk);
    assert!(options.suppress_sequences.is_empty());
    assert!(!options.return_end_token);
    assert_eq!(options.max_length, 512);
    assert_eq!(options.min_length, 0);
    assert_eq!(options.sampling_topk, 1);
    assert_eq!(f32::from_bits(options.sampling_topp), 1.);
    assert_eq!(f32::from_bits(options.sampling_temperature), 1.);
    assert_eq!(options.num_hypotheses, 1);
    assert!(!options.return_scores);
    assert!(!options.return_alternatives);
    assert_eq!(f32::from_bits(options.min_alternative_expansion_prob), 0.);
    assert!(options.static_prompt.is_empty());
    assert!(options.cache_static_prompt);
    assert!(options.include_prompt_in_result);
    assert_eq!(options.max_batch_size, 0);
    assert_eq!(options.batch_type, Default::default());
}

#[test]
fn default_batch_type_counts_examples() {
    assert_eq!(BatchType::default(), BatchType::Examples);
    assert_ne!(BatchType::default(), BatchType::Tokens);
}

#[test]
fn default_real_options_are_exact_bit_patterns() {
    let options: GenerationOptions<String, String> = GenerationOptions::default();
    assert_eq!(options.patience, 0x3F80_0000);
    assert_eq!(options.min_alternative_expansion_prob, 0);
    assert_eq!(f32::from_bits(ONE_BITS), 1.0);
    assert_eq!(f32::from_bits(ZERO_BITS), 0.0);
    assert_eq!(options.sampling_temperature, ONE_BITS);
}

#[test]
fn no_callback_never_stops() {
    let mut boxed: GenerationCallbackBox<fn(GenerationStepResult) -> bool> =
        GenerationCallbackBox::from(None);
    for n in 0..5 {
        assert!(!execute_generation_callback(&mut boxed, step(n, "a", n == 4)));
    }
    assert!(boxed.callback.is_none());
}

#[test]
fn callback_answer_is_returned() {
    let mut seen: Vec<String> = Vec::new();
    {
        let mut cb = |r: GenerationStepResult| -> bool {
            seen.push(r.token.clone());
            r.is_last
        };
        let mut boxed = GenerationCallbackBox::from(Some(&mut cb));
        assert!(boxed.callback.is_some());
        assert!(!execute_generation_callback(&mut boxed, step(0, "Hello", false)));
        assert!(!execute_generation_callback(&mut boxed, step(1, "world", false)));
        assert!(execute_generation_callback(&mut boxed, step(2, "!", true)));
        assert!(boxed.callback.is_some());
    }
    assert_eq!(seen, vec!["Hello".to_string(), "world".to_string(), "!".to_string()]);
}

#[test]
fn callback_through_trait_object() {
    let mut count = 0usize;
    let mut cb = |_r: GenerationStepResult| -> bool {
        count += 1;
        count >= 2
    };
    let dyn_cb: &mut dyn FnMut(GenerationStepResult) -> bool = &mut cb;
    let mut boxed = GenerationCallbackBox::from(Some(dyn_cb));
    assert!(!execute_generation_callback(&mut boxed, step(0, "x", false)));
    assert!(execute_generation_callback(&mut boxed, step(1, "y", false)));
}

#[test]
fn result_counts_sequences() {
    let res = GenerationResult {
        sequences: vec![
            vec!["a".to_string(), "b".to_string()],
            vec!["c".to_string()],
            vec![],
        ],
        sequences_ids: vec![vec![1, 2], vec![3], vec![]],
        scores: vec![],
    };
    assert_eq!(res.num_sequences(), 3);
    assert!(!res.has_scores());

    let empty = GenerationResult { sequences: vec![], sequences_ids: vec![], scores: vec![] };
    assert_eq!(empty.num_sequences(), 0);
    assert!(!empty.has_scores());
}

#[test]
fn result_with_scores() {
    let res = GenerationResult {
        sequences: vec![vec!["a".to_string()]],
        sequences_ids: vec![vec![4]],
        scores: vec![(-1.25f32).to_bits()],
    };
    assert_eq!(res.num_sequences(), 1);
    assert!(res.has_scores());
    assert_eq!(f32::from_bits(res.scores[0]), -1.25);
}
