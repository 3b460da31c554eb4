use iamdreamingof_generator::error::Error;
use iamdreamingof_generator::models::{
    AiProvider, Challenge, Config, DateEntry, Days, Word, WordType,
};

#[test]
fn test_days_operations() {
    let mut days = Days::new();
    days.add_day("2024-01-01".to_string(), 1);
    days.add_day("2024-01-02".to_string(), 2);

    assert_eq!(days.max_id(), Some(2));
    assert!(days.find_by_date("2024-01-01").is_some());
    assert!(days.find_by_date("2024-01-03").is_none());
}

#[test]
fn test_days_empty_index_has_no_max() {
    let days = Days::new();
    assert_eq!(days.max_id(), None);
    assert!(days.find_by_date("2024-01-01").is_none());
    assert_eq!(Days::default(), Days::new());
}

#[test]
fn test_days_find_returns_first_entry_of_a_date() {
    let mut days = Days::new();
    days.add_day("2024-01-01".to_string(), 7);
    days.add_day("2024-01-02".to_string(), 3);
    days.add_day("2024-01-01".to_string(), 9);

    assert_eq!(
        days.find_by_date("2024-01-01"),
        Some(&DateEntry {
            date: "2024-01-01".to_string(),
            id: 7
        })
    );
    assert_eq!(days.find_by_date("2024-01-02").unwrap().id, 3);
}

#[test]
fn test_days_max_id_is_independent_of_order() {
    let mut days = Days::new();
    days.add_day("a".to_string(), 5);
    days.add_day("b".to_string(), 40);
    days.add_day("c".to_string(), 12);
    assert_eq!(days.max_id(), Some(40));

    let mut only_zero = Days::new();
    only_zero.add_day("z".to_string(), 0);
    assert_eq!(only_zero.max_id(), Some(0));
}

#[test]
fn test_days_clone_keeps_entries() {
    let mut days = Days::new();
    days.add_day("2024-01-01".to_string(), 1);
    let copy = days.clone();
    assert_eq!(copy, days);
}

#[test]
fn test_challenge_new_keeps_every_field() {
    let words = vec![
        Word {
            word: "mountain".to_string(),
            word_type: WordType::Object,
        },
        Word {
            word: "flying".to_string(),
            word_type: WordType::Gerund,
        },
        Word {
            word: "freedom".to_string(),
            word_type: WordType::Concept,
        },
    ];

    let challenge = Challenge::new(
        words.clone(),
        "images/test.jpg".to_string(),
        "https://cdn.example.com/images/test.jpg".to_string(),
        "https://cdn.example.com/images/test.webp".to_string(),
        "A dreamlike scene of flying mountains symbolizing freedom".to_string(),
    );

    assert_eq!(challenge.words, words);
    assert_eq!(challenge.image_path, "images/test.jpg");
    assert_eq!(
        challenge.image_url_jpg,
        "https://cdn.example.com/images/test.jpg"
    );
    assert_eq!(
        challenge.image_url_webp,
        "https://cdn.example.com/images/test.webp"
    );
    assert_eq!(
        challenge.prompt,
        "A dreamlike scene of flying mountains symbolizing freedom"
    );
    assert_eq!(challenge.clone(), challenge);
}

#[test]
fn test_config_requires_the_three_credentials_in_order() {
    let all = Config::from_values(
        Some("k".to_string()),
        Some("a".to_string()),
        Some("s".to_string()),
        None,
        None,
        None,
    )
    .unwrap();
    assert_eq!(all.openai_api_key, "k");
    assert_eq!(all.cdn_access_key_id, "a");
    assert_eq!(all.cdn_secret_access_key, "s");
    assert_eq!(all.cdn_endpoint, "https://nyc3.digitaloceanspaces.com");
    assert_eq!(all.cdn_bucket, "iamdreamingof");
    assert_eq!(all.cdn_base_url, "https://cdn.iamdreamingof.com");

    assert_eq!(
        Config::from_values(None, None, None, None, None, None),
        Err(Error::Generic("AI_API_KEY not set".to_string()))
    );
    assert_eq!(
        Config::from_values(Some("k".to_string()), None, None, None, None, None),
        Err(Error::Generic("CDN_ACCESS_KEY_ID not set".to_string()))
    );
    assert_eq!(
        Config::from_values(
            Some("k".to_string()),
            Some("a".to_string()),
            None,
            None,
            None,
            None
        ),
        Err(Error::Generic("CDN_SECRET_ACCESS_KEY not set".to_string()))
    );
}

#[test]
fn test_config_takes_given_storage_settings() {
    let config = Config::from_values(
        Some("k".to_string()),
        Some("a".to_string()),
        Some("s".to_string()),
        Some("https://endpoint".to_string()),
        Some("bucket".to_string()),
        Some("https://base".to_string()),
    )
    .unwrap();
    assert_eq!(config.cdn_endpoint, "https://endpoint");
    assert_eq!(config.cdn_bucket, "bucket");
    assert_eq!(config.cdn_base_url, "https://base");
}

#[test]
fn test_error_messages() {
    assert_eq!(
        Error::S3("boom".to_string()).message(),
        "S3/CDN error: boom"
    );
    assert_eq!(
        Error::NotFound("days.json".to_string()).message(),
        "S3/CDN error: File not found: days.json"
    );
    assert_eq!(
        Error::InsufficientWords(WordType::Gerund).message(),
        "Word selection error: Not enough words in list: gerund"
    );
    assert_eq!(
        Error::SelectionExhausted.message(),
        "Word selection error: Could not generate unique words after 100 attempts"
    );
    assert_eq!(
        Error::Overflow.message(),
        "Invariant violation: Day ID overflow"
    );
    assert_eq!(
        Error::Challenge {
            difficulty: "hard".to_string(),
            cause: Box::new(Error::AiProvider("timeout".to_string())),
        }
        .message(),
        "[hard] AI provider error: timeout"
    );
    assert_eq!(Error::Io("x".to_string()).message(), "IO error: x");
    assert_eq!(
        Error::Serialization("x".to_string()).message(),
        "Serialization error: x"
    );
    assert_eq!(
        Error::Http("x".to_string()).message(),
        "HTTP request error: x"
    );
    assert_eq!(
        Error::Image("x".to_string()).message(),
        "Image processing error: x"
    );
    assert_eq!(Error::Config("x".to_string()).message(), "Config error: x");
    assert_eq!(
        Error::InvalidInput("x".to_string()).message(),
        "Invalid input: x"
    );
    assert_eq!(
        Error::DateParse("x".to_string()).message(),
        "Date parsing error: x"
    );
    assert_eq!(
        Error::Invariant("x".to_string()).message(),
        "Invariant violation: x"
    );
    assert_eq!(Error::Generic("x".to_string()).message(), "Generic error: x");
}

#[test]
fn test_provider_names() {
    use_provider_names();
}

fn use_provider_names() {
    assert_eq!(AiProvider::parse("openai"), Some(AiProvider::OpenAi));
    assert_eq!(AiProvider::parse("gemini"), Some(AiProvider::Gemini));
    assert_eq!(AiProvider::parse("Gemini"), None);
    assert_eq!(AiProvider::parse(""), None);
    assert_eq!(AiProvider::OpenAi.name(), "openai");
    assert_eq!(AiProvider::Gemini.name(), "gemini");
}
