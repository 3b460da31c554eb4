use iamdreamingof_generator::error::Error;
use iamdreamingof_generator::models::{Challenge, Word, WordType};
use iamdreamingof_generator::pipeline::{assemble_day, BuildPlan, Difficulty};
use iamdreamingof_generator::words::WordSets;

fn create_test_challenge(difficulty: &str) -> Challenge {
    Challenge::new(
        vec![Word {
            word: format!("{}_word", difficulty),
            word_type: WordType::Object,
        }],
        format!("images/{}.jpg", difficulty),
        format!("https://cdn.example.com/images/{}.jpg", difficulty),
        format!("https://cdn.example.com/images/{}.webp", difficulty),
        format!("Test prompt for {} difficulty", difficulty),
    )
}

#[test]
fn test_labels() {
    assert_eq!(Difficulty::Easy.label(), "easy");
    assert_eq!(Difficulty::Medium.label(), "medium");
    assert_eq!(Difficulty::Hard.label(), "hard");
    assert_eq!(Difficulty::Dreaming.label(), "dreaming");
}

#[test]
fn test_four_successes_make_the_day() {
    let day = assemble_day(
        "2024-01-15",
        42,
        Ok(create_test_challenge("easy")),
        Ok(create_test_challenge("medium")),
        Ok(create_test_challenge("hard")),
        Ok(create_test_challenge("dreaming")),
    )
    .unwrap();
    assert_eq!(day.date, "2024-01-15");
    assert_eq!(day.id, 42);
    assert_eq!(day.challenges.easy, create_test_challenge("easy"));
    assert_eq!(day.challenges.medium, create_test_challenge("medium"));
    assert_eq!(day.challenges.hard, create_test_challenge("hard"));
    assert_eq!(day.challenges.dreaming, create_test_challenge("dreaming"));
}

#[test]
fn test_one_failure_fails_the_day() {
    let result = assemble_day(
        "2024-01-15",
        42,
        Ok(create_test_challenge("easy")),
        Ok(create_test_challenge("medium")),
        Err(Error::AiProvider("hard failed".to_string())),
        Ok(create_test_challenge("dreaming")),
    );
    assert_eq!(result, Err(Error::AiProvider("hard failed".to_string())));
}

#[test]
fn test_first_failure_in_order_is_reported() {
    let result = assemble_day(
        "2024-01-15",
        42,
        Ok(create_test_challenge("easy")),
        Err(Error::S3("medium".to_string())),
        Err(Error::AiProvider("hard".to_string())),
        Err(Error::Image("dreaming".to_string())),
    );
    assert_eq!(result, Err(Error::S3("medium".to_string())));

    let result = assemble_day(
        "2024-01-15",
        42,
        Err(Error::Image("easy".to_string())),
        Ok(create_test_challenge("medium")),
        Ok(create_test_challenge("hard")),
        Err(Error::Image("dreaming".to_string())),
    );
    assert_eq!(result, Err(Error::Image("easy".to_string())));

    let result = assemble_day(
        "2024-01-15",
        42,
        Ok(create_test_challenge("easy")),
        Ok(create_test_challenge("medium")),
        Ok(create_test_challenge("hard")),
        Err(Error::Image("dreaming".to_string())),
    );
    assert_eq!(result, Err(Error::Image("dreaming".to_string())));
}

#[test]
fn test_build_plan_maps_groups_to_difficulties() {
    let w = |t: &str| Word {
        word: t.to_string(),
        word_type: WordType::Object,
    };
    let plan = BuildPlan::from_selection(WordSets {
        easy: vec![w("e")],
        medium: vec![w("m")],
        hard: vec![w("h")],
        dreaming: vec![w("d")],
    });
    assert_eq!(plan.words(Difficulty::Easy), &vec![w("e")]);
    assert_eq!(plan.words(Difficulty::Medium), &vec![w("m")]);
    assert_eq!(plan.words(Difficulty::Hard), &vec![w("h")]);
    assert_eq!(plan.words(Difficulty::Dreaming), &vec![w("d")]);
}
