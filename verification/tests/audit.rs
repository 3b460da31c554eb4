use iamdreamingof_generator::ai::gemini::strip_models_prefix;
use iamdreamingof_generator::audit::{
    canonical_word_key, cap_pairs, check_batch_answer, check_dimension, collect_unique_words,
    cross_label, default_embedding_model, missing_embedding, resolved_model, validate_settings,
};
use iamdreamingof_generator::error::Error;
use iamdreamingof_generator::models::AiProvider;

#[test]
fn test_collect_unique_words_preserves_first_seen_order() {
    let categories = vec![
        (
            "a".to_string(),
            vec!["clock".to_string(), "apple".to_string()],
        ),
        (
            "b".to_string(),
            vec!["apple".to_string(), "watch".to_string()],
        ),
    ];

    let unique = collect_unique_words(&categories);
    assert_eq!(unique, vec!["clock", "apple", "watch"]);
}

#[test]
fn test_collect_unique_words_is_case_insensitive() {
    let categories = vec![
        (
            "a".to_string(),
            vec!["Apple".to_string(), "clock".to_string()],
        ),
        (
            "b".to_string(),
            vec!["apple".to_string(), "watch".to_string()],
        ),
    ];

    let unique = collect_unique_words(&categories);
    assert_eq!(unique, vec!["Apple", "clock", "watch"]);
}

#[test]
fn test_collect_unique_words_of_nothing_is_empty() {
    let none: Vec<(String, Vec<String>)> = Vec::new();
    assert!(collect_unique_words(&none).is_empty());
    let empty_lists = vec![("a".to_string(), Vec::new()), ("b".to_string(), Vec::new())];
    assert!(collect_unique_words(&empty_lists).is_empty());
}

#[test]
fn test_collect_unique_words_drops_repeats_within_one_list() {
    let categories = vec![(
        "a".to_string(),
        vec![
            "Tree".to_string(),
            "tree".to_string(),
            "TREE".to_string(),
            "leaf".to_string(),
        ],
    )];
    assert_eq!(collect_unique_words(&categories), vec!["Tree", "leaf"]);
}

#[test]
fn test_canonical_word_key_lowercases() {
    assert_eq!(canonical_word_key("Apple"), "apple");
    assert_eq!(canonical_word_key("CLOCK tower"), "clock tower");
    assert_eq!(canonical_word_key("\u{c9}t\u{e9}"), "\u{e9}t\u{e9}");
    assert_eq!(canonical_word_key(""), "");
}

#[test]
fn test_cli_defaults() {
    assert_eq!(
        resolved_model(AiProvider::Gemini, None),
        "gemini-embedding-001"
    );
    assert!(validate_settings(AiProvider::Gemini, 64, 50).is_ok());
}

#[test]
fn test_cli_provider_override_sets_matching_default_model() {
    assert_eq!(
        resolved_model(AiProvider::OpenAi, None),
        "text-embedding-3-small"
    );
    assert_eq!(
        default_embedding_model(&AiProvider::OpenAi),
        "text-embedding-3-small"
    );
}

#[test]
fn test_cli_rejects_zero_batch_size() {
    let err = validate_settings(AiProvider::Gemini, 0, 50).unwrap_err();
    assert!(matches!(err, Error::Config(_)));
    assert_eq!(err, Error::Config("--batch-size must be >= 1".to_string()));
}

#[test]
fn test_cli_rejects_batch_size_above_gemini_limit() {
    let err = validate_settings(AiProvider::Gemini, 101, 50).unwrap_err();
    assert!(matches!(err, Error::Config(_)));
    assert_eq!(
        err,
        Error::Config("--batch-size must be <= 100 for provider gemini".to_string())
    );
    assert!(validate_settings(AiProvider::Gemini, 100, 50).is_ok());
}

#[test]
fn test_cli_allows_large_batch_size_for_openai() {
    assert!(validate_settings(AiProvider::OpenAi, 512, 50).is_ok());
}

#[test]
fn test_cli_rejects_zero_max_pairs() {
    let err = validate_settings(AiProvider::Gemini, 64, 0).unwrap_err();
    assert!(matches!(err, Error::Config(_)));
    assert_eq!(err, Error::Config("--max-pairs must be >= 1".to_string()));
}

#[test]
fn test_settings_are_checked_in_order() {
    assert_eq!(
        validate_settings(AiProvider::Gemini, 0, 0),
        Err(Error::Config("--batch-size must be >= 1".to_string()))
    );
    assert_eq!(
        validate_settings(AiProvider::Gemini, 500, 0),
        Err(Error::Config("--max-pairs must be >= 1".to_string()))
    );
}

#[test]
fn test_cli_model_override_wins() {
    assert_eq!(
        resolved_model(AiProvider::Gemini, Some("custom-embed-model")),
        "custom-embed-model"
    );
}

#[test]
fn test_cli_strips_gemini_models_prefix() {
    assert_eq!(
        resolved_model(AiProvider::Gemini, Some("models/gemini-embedding-001")),
        "gemini-embedding-001"
    );
}

#[test]
fn test_openai_model_keeps_models_prefix() {
    assert_eq!(
        resolved_model(AiProvider::OpenAi, Some("models/x")),
        "models/x"
    );
}

#[test]
fn test_strip_models_prefix_only_strips_a_leading_prefix() {
    assert_eq!(strip_models_prefix("models/a"), "a");
    assert_eq!(strip_models_prefix("models/"), "");
    assert_eq!(strip_models_prefix("a/models/b"), "a/models/b");
    assert_eq!(strip_models_prefix("model"), "model");
    assert_eq!(strip_models_prefix("models/models/a"), "models/a");
}

#[test]
fn test_cap_pairs_reports_total_and_truncation() {
    let pairs = vec![
        ("a".to_string(), "b".to_string(), 0.9f32),
        ("a".to_string(), "c".to_string(), 0.8f32),
        ("b".to_string(), "c".to_string(), 0.7f32),
    ];

    let (flagged_pairs, truncated, reported) = cap_pairs(pairs, 2);
    assert_eq!(flagged_pairs, 3);
    assert!(truncated);
    assert_eq!(reported.len(), 2);
    assert_eq!(reported[0].1, "b");
    assert_eq!(reported[1].1, "c");
}

#[test]
fn test_cap_pairs_keeps_all_when_under_limit() {
    let pairs = vec![("a".to_string(), "b".to_string(), 0.9f32)];

    let (flagged_pairs, truncated, reported) = cap_pairs(pairs, 2);
    assert_eq!(flagged_pairs, 1);
    assert!(!truncated);
    assert_eq!(reported.len(), 1);
}

#[test]
fn test_cap_pairs_keeps_all_at_exact_limit() {
    let pairs = vec![
        ("a".to_string(), "b".to_string(), 0.9f32),
        ("a".to_string(), "c".to_string(), 0.8f32),
    ];

    let (flagged_pairs, truncated, reported) = cap_pairs(pairs, 2);
    assert_eq!(flagged_pairs, 2);
    assert!(!truncated);
    assert_eq!(reported.len(), 2);
}

#[test]
fn test_embed_all_words_rejects_length_mismatch() {
    assert_eq!(
        check_batch_answer(2, 1),
        Err(Error::AiProvider(
            "Embedding response length mismatch: requested 2, got 1".to_string()
        ))
    );
    assert_eq!(check_batch_answer(2, 2), Ok(()));
    assert_eq!(check_batch_answer(0, 0), Ok(()));
}

#[test]
fn test_embed_all_words_rejects_inconsistent_dimensions_across_batches() {
    assert_eq!(check_dimension(None, 2, "a"), Ok(2));
    assert_eq!(check_dimension(Some(2), 2, "b"), Ok(2));
    assert_eq!(
        check_dimension(Some(2), 3, "b"),
        Err(Error::AiProvider(
            "Embedding dimension mismatch for 'b': expected 2, got 3".to_string()
        ))
    );
}

#[test]
fn test_resolve_vectors_errors_when_embedding_missing() {
    let err = missing_embedding("beta");
    assert!(matches!(err, Error::Invariant(_)));
    assert_eq!(
        err,
        Error::Invariant("Missing embedding for word 'beta'".to_string())
    );
}

#[test]
fn test_cross_label() {
    assert_eq!(cross_label("objects", "concepts"), "cross:objects vs concepts");
}
