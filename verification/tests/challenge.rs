use iamdreamingof_generator::challenge::{
    BuildAction, BuildEvent, BuildState, ChallengeBuilder, IMAGE_RETRY_DELAY_SECS,
    MAX_IMAGE_ATTEMPTS,
};
use iamdreamingof_generator::error::Error;
use iamdreamingof_generator::image::ProcessedImages;
use iamdreamingof_generator::models::{Challenge, Word, WordType};

fn words() -> Vec<Word> {
    vec![
        Word {
            word: "clock".to_string(),
            word_type: WordType::Object,
        },
        Word {
            word: "running".to_string(),
            word_type: WordType::Gerund,
        },
        Word {
            word: "wonder".to_string(),
            word_type: WordType::Concept,
        },
    ]
}

fn violation() -> BuildAction {
    BuildAction::Fail(Error::Invariant(
        "unexpected event for the build state".to_string(),
    ))
}

fn images(jpeg: &str, webp: &str) -> ProcessedImages {
    ProcessedImages {
        jpeg_path: jpeg.to_string(),
        webp_path: webp.to_string(),
    }
}

/// Feeds the events to a fresh build and collects the answers.
fn drive(events: Vec<BuildEvent>) -> (ChallengeBuilder, Vec<BuildAction>) {
    let mut builder = ChallengeBuilder::new(words(), "easy".to_string());
    let mut actions = vec![builder.start()];
    for event in events {
        let (next, action) = builder.step(event);
        builder = next;
        actions.push(action);
    }
    (builder, actions)
}

fn count_image_requests(actions: &[BuildAction]) -> usize {
    actions
        .iter()
        .filter(|a| matches!(a, BuildAction::GenerateImage { .. }))
        .count()
}

fn count_text_checks(actions: &[BuildAction]) -> usize {
    actions
        .iter()
        .filter(|a| matches!(a, BuildAction::DetectText { .. }))
        .count()
}

#[test]
fn test_limits() {
    assert_eq!(MAX_IMAGE_ATTEMPTS, 3);
    assert_eq!(IMAGE_RETRY_DELAY_SECS, 1);
}

#[test]
fn test_build_starts_with_the_prompt() {
    let builder = ChallengeBuilder::new(words(), "easy".to_string());
    assert_eq!(builder.current_state(), &BuildState::GeneratingPrompt);
    assert!(!builder.is_done());
    assert_eq!(builder.start(), BuildAction::GeneratePrompt { words: words() });
}

#[test]
fn test_clean_first_image_is_accepted() {
    let (builder, actions) = drive(vec![
        BuildEvent::PromptGenerated("A scene".to_string()),
        BuildEvent::ImageGenerated(vec![1, 2, 3]),
        BuildEvent::TextChecked(false),
    ]);
    assert_eq!(
        actions,
        vec![
            BuildAction::GeneratePrompt { words: words() },
            BuildAction::GenerateImage {
                prompt: "A scene".to_string(),
                words: words()
            },
            BuildAction::DetectText {
                image: vec![1, 2, 3]
            },
            BuildAction::ProcessImage {
                image: vec![1, 2, 3],
                label: "easy".to_string()
            },
        ]
    );
    assert_eq!(
        builder.current_state(),
        &BuildState::Accepted {
            prompt: "A scene".to_string(),
            attempts: 1
        }
    );
}

#[test]
fn test_text_twice_then_clean_makes_three_images_and_three_checks() {
    let (builder, actions) = drive(vec![
        BuildEvent::PromptGenerated("A scene".to_string()),
        BuildEvent::ImageGenerated(vec![1]),
        BuildEvent::TextChecked(true),
        BuildEvent::BackoffElapsed,
        BuildEvent::ImageGenerated(vec![2]),
        BuildEvent::TextChecked(true),
        BuildEvent::BackoffElapsed,
        BuildEvent::ImageGenerated(vec![3]),
        BuildEvent::TextChecked(false),
    ]);
    assert_eq!(count_image_requests(&actions), 3);
    assert_eq!(count_text_checks(&actions), 3);
    assert_eq!(
        builder.current_state(),
        &BuildState::Accepted {
            prompt: "A scene".to_string(),
            attempts: 3
        }
    );
    assert_eq!(
        actions.last().unwrap(),
        &BuildAction::ProcessImage {
            image: vec![3],
            label: "easy".to_string()
        }
    );
    assert_eq!(
        actions[3],
        BuildAction::Wait {
            seconds: IMAGE_RETRY_DELAY_SECS
        }
    );
    // The prompt is generated once; only the image is made again.
    assert_eq!(
        actions[4],
        BuildAction::GenerateImage {
            prompt: "A scene".to_string(),
            words: words()
        }
    );
}

#[test]
fn test_persistent_text_is_accepted_with_warning_after_three_images() {
    let (builder, actions) = drive(vec![
        BuildEvent::PromptGenerated("A scene".to_string()),
        BuildEvent::ImageGenerated(vec![1]),
        BuildEvent::TextChecked(true),
        BuildEvent::BackoffElapsed,
        BuildEvent::ImageGenerated(vec![2]),
        BuildEvent::TextChecked(true),
        BuildEvent::BackoffElapsed,
        BuildEvent::ImageGenerated(vec![3]),
        BuildEvent::TextChecked(true),
    ]);
    assert_eq!(count_image_requests(&actions), 3);
    assert_eq!(count_text_checks(&actions), 3);
    assert_eq!(
        builder.current_state(),
        &BuildState::AcceptedWithWarning {
            prompt: "A scene".to_string(),
            attempts: 3
        }
    );
    assert_eq!(
        actions.last().unwrap(),
        &BuildAction::ProcessImage {
            image: vec![3],
            label: "easy".to_string()
        }
    );
    assert!(!actions.iter().any(|a| matches!(a, BuildAction::Fail(_))));
}

#[test]
fn test_full_build_hands_out_the_challenge() {
    let (builder, actions) = drive(vec![
        BuildEvent::PromptGenerated("A scene".to_string()),
        BuildEvent::ImageGenerated(vec![9, 9]),
        BuildEvent::TextChecked(false),
        BuildEvent::ImageProcessed(images("/out/easy_1.jpg", "/out/easy_1.webp")),
        BuildEvent::VariantsRead {
            jpeg: vec![1],
            webp: vec![2],
        },
        BuildEvent::Uploaded("https://cdn/images/easy_1.jpg".to_string()),
        BuildEvent::Uploaded("https://cdn/images/easy_1.webp".to_string()),
    ]);
    assert_eq!(
        actions[4],
        BuildAction::ReadVariants {
            jpeg_path: "/out/easy_1.jpg".to_string(),
            webp_path: "/out/easy_1.webp".to_string()
        }
    );
    assert_eq!(
        actions[5],
        BuildAction::Upload {
            key: "images/easy_1.jpg".to_string(),
            data: vec![1],
            content_type: "image/jpeg".to_string()
        }
    );
    assert_eq!(
        actions[6],
        BuildAction::Upload {
            key: "images/easy_1.webp".to_string(),
            data: vec![2],
            content_type: "image/webp".to_string()
        }
    );
    assert_eq!(
        actions[7],
        BuildAction::Finish(Challenge::new(
            words(),
            "images/easy_1.jpg".to_string(),
            "https://cdn/images/easy_1.jpg".to_string(),
            "https://cdn/images/easy_1.webp".to_string(),
            "A scene".to_string(),
        ))
    );
    assert!(builder.is_done());
    assert_eq!(builder.current_state(), &BuildState::Finished);
}

#[test]
fn test_failure_is_propagated_from_every_waiting_state() {
    let prefixes: Vec<Vec<BuildEvent>> = vec![
        vec![],
        vec![BuildEvent::PromptGenerated("p".to_string())],
        vec![
            BuildEvent::PromptGenerated("p".to_string()),
            BuildEvent::ImageGenerated(vec![1]),
        ],
        vec![
            BuildEvent::PromptGenerated("p".to_string()),
            BuildEvent::ImageGenerated(vec![1]),
            BuildEvent::TextChecked(false),
        ],
        vec![
            BuildEvent::PromptGenerated("p".to_string()),
            BuildEvent::ImageGenerated(vec![1]),
            BuildEvent::TextChecked(false),
            BuildEvent::ImageProcessed(images("a.jpg", "a.webp")),
        ],
        vec![
            BuildEvent::PromptGenerated("p".to_string()),
            BuildEvent::ImageGenerated(vec![1]),
            BuildEvent::TextChecked(false),
            BuildEvent::ImageProcessed(images("a.jpg", "a.webp")),
            BuildEvent::VariantsRead {
                jpeg: vec![],
                webp: vec![],
            },
        ],
        vec![
            BuildEvent::PromptGenerated("p".to_string()),
            BuildEvent::ImageGenerated(vec![1]),
            BuildEvent::TextChecked(false),
            BuildEvent::ImageProcessed(images("a.jpg", "a.webp")),
            BuildEvent::VariantsRead {
                jpeg: vec![],
                webp: vec![],
            },
            BuildEvent::Uploaded("u".to_string()),
        ],
    ];
    for prefix in prefixes {
        let mut events = prefix;
        events.push(BuildEvent::Failed(Error::AiProvider("down".to_string())));
        let (builder, actions) = drive(events);
        assert_eq!(
            actions.last().unwrap(),
            &BuildAction::Fail(Error::AiProvider("down".to_string()))
        );
        assert_eq!(builder.current_state(), &BuildState::Failed);
        assert!(builder.is_done());
    }
}

#[test]
fn test_unexpected_event_is_an_invariant_error() {
    let (builder, actions) = drive(vec![BuildEvent::TextChecked(false)]);
    assert_eq!(actions.last().unwrap(), &violation());
    assert_eq!(builder.current_state(), &BuildState::Failed);

    let (_, actions) = drive(vec![
        BuildEvent::PromptGenerated("p".to_string()),
        BuildEvent::BackoffElapsed,
    ]);
    assert_eq!(actions.last().unwrap(), &violation());
}

#[test]
fn test_events_after_the_end_are_invariant_errors() {
    let (builder, actions) = drive(vec![
        BuildEvent::Failed(Error::S3("x".to_string())),
        BuildEvent::PromptGenerated("late".to_string()),
        BuildEvent::Failed(Error::S3("again".to_string())),
    ]);
    assert_eq!(actions[1], BuildAction::Fail(Error::S3("x".to_string())));
    assert_eq!(actions[2], violation());
    assert_eq!(actions[3], violation());
    assert_eq!(builder.current_state(), &BuildState::Failed);
}

#[test]
fn test_path_without_file_name_fails_the_build() {
    let (builder, actions) = drive(vec![
        BuildEvent::PromptGenerated("p".to_string()),
        BuildEvent::ImageGenerated(vec![1]),
        BuildEvent::TextChecked(false),
        BuildEvent::ImageProcessed(images("/out/..", "/out/a.webp")),
        BuildEvent::VariantsRead {
            jpeg: vec![],
            webp: vec![],
        },
    ]);
    assert_eq!(
        actions.last().unwrap(),
        &BuildAction::Fail(Error::Invariant(
            "Invalid JPEG output path: /out/..".to_string()
        ))
    );
    assert_eq!(builder.current_state(), &BuildState::Failed);

    let (_, actions) = drive(vec![
        BuildEvent::PromptGenerated("p".to_string()),
        BuildEvent::ImageGenerated(vec![1]),
        BuildEvent::TextChecked(false),
        BuildEvent::ImageProcessed(images("a.jpg", "")),
        BuildEvent::VariantsRead {
            jpeg: vec![],
            webp: vec![],
        },
    ]);
    assert_eq!(
        actions.last().unwrap(),
        &BuildAction::Fail(Error::Invariant("Invalid WebP output path: ".to_string()))
    );
}

#[test]
fn test_warning_path_continues_like_an_accepted_image() {
    let (_, actions) = drive(vec![
        BuildEvent::PromptGenerated("p".to_string()),
        BuildEvent::ImageGenerated(vec![1]),
        BuildEvent::TextChecked(true),
        BuildEvent::BackoffElapsed,
        BuildEvent::ImageGenerated(vec![2]),
        BuildEvent::TextChecked(true),
        BuildEvent::BackoffElapsed,
        BuildEvent::ImageGenerated(vec![3]),
        BuildEvent::TextChecked(true),
        BuildEvent::ImageProcessed(images("hard_x.jpg", "dir/hard_x.webp")),
        BuildEvent::VariantsRead {
            jpeg: vec![7],
            webp: vec![8],
        },
        BuildEvent::Uploaded("j".to_string()),
        BuildEvent::Uploaded("w".to_string()),
    ]);
    assert_eq!(
        actions.last().unwrap(),
        &BuildAction::Finish(Challenge::new(
            words(),
            "images/hard_x.jpg".to_string(),
            "j".to_string(),
            "w".to_string(),
            "p".to_string(),
        ))
    );
}

#[test]
fn test_trailing_slash_of_a_stored_path_is_passed_over() {
    let (_, actions) = drive(vec![
        BuildEvent::PromptGenerated("p".to_string()),
        BuildEvent::ImageGenerated(vec![1]),
        BuildEvent::TextChecked(false),
        BuildEvent::ImageProcessed(images("/out/a.jpg/", "/out/a.webp/.")),
        BuildEvent::VariantsRead {
            jpeg: vec![1],
            webp: vec![2],
        },
        BuildEvent::Uploaded("j".to_string()),
    ]);
    assert_eq!(
        actions[5],
        BuildAction::Upload {
            key: "images/a.jpg".to_string(),
            data: vec![1],
            content_type: "image/jpeg".to_string()
        }
    );
    assert_eq!(
        actions[6],
        BuildAction::Upload {
            key: "images/a.webp".to_string(),
            data: vec![2],
            content_type: "image/webp".to_string()
        }
    );
}
