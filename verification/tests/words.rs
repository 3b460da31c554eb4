use iamdreamingof_generator::error::Error;
use iamdreamingof_generator::models::{Word, WordType};
use iamdreamingof_generator::words::{
    parse_word_list, tag_words, SelectionVerdict, WordSelector, WordSets, MAX_ATTEMPTS,
};
use std::collections::HashSet;

fn names(prefix: &str, count: usize) -> Vec<String> {
    (0..count).map(|i| format!("{}{}", prefix, i)).collect()
}

fn create_test_selector() -> WordSelector {
    WordSelector::new(names("object", 60), names("gerund", 40), names("concept", 20))
}

fn word(text: &str, word_type: WordType) -> Word {
    Word {
        word: text.to_string(),
        word_type,
    }
}

fn sets_of(texts: [&str; 12]) -> WordSets {
    WordSets {
        easy: vec![
            word(texts[0], WordType::Object),
            word(texts[1], WordType::Object),
            word(texts[2], WordType::Object),
        ],
        medium: vec![
            word(texts[3], WordType::Object),
            word(texts[4], WordType::Object),
            word(texts[5], WordType::Gerund),
        ],
        hard: vec![
            word(texts[6], WordType::Object),
            word(texts[7], WordType::Gerund),
            word(texts[8], WordType::Gerund),
        ],
        dreaming: vec![
            word(texts[9], WordType::Object),
            word(texts[10], WordType::Gerund),
            word(texts[11], WordType::Concept),
        ],
    }
}

#[test]
fn test_word_selection_difficulty_counts() {
    let selector = create_test_selector();
    let word_sets = selector.select_words().unwrap();

    // Easy: 3 objects
    assert_eq!(word_sets.easy.len(), 3);
    assert!(word_sets
        .easy
        .iter()
        .all(|w| matches!(w.word_type, WordType::Object)));

    // Medium: 2 objects, 1 gerund
    assert_eq!(word_sets.medium.len(), 3);
    let medium_objects = word_sets
        .medium
        .iter()
        .filter(|w| matches!(w.word_type, WordType::Object))
        .count();
    let medium_gerunds = word_sets
        .medium
        .iter()
        .filter(|w| matches!(w.word_type, WordType::Gerund))
        .count();
    assert_eq!(medium_objects, 2);
    assert_eq!(medium_gerunds, 1);

    // Hard: 1 object, 2 gerunds
    assert_eq!(word_sets.hard.len(), 3);
    let hard_objects = word_sets
        .hard
        .iter()
        .filter(|w| matches!(w.word_type, WordType::Object))
        .count();
    let hard_gerunds = word_sets
        .hard
        .iter()
        .filter(|w| matches!(w.word_type, WordType::Gerund))
        .count();
    assert_eq!(hard_objects, 1);
    assert_eq!(hard_gerunds, 2);

    // Dreaming: 1 object, 1 gerund, 1 concept
    assert_eq!(word_sets.dreaming.len(), 3);
    let dream_objects = word_sets
        .dreaming
        .iter()
        .filter(|w| matches!(w.word_type, WordType::Object))
        .count();
    let dream_gerunds = word_sets
        .dreaming
        .iter()
        .filter(|w| matches!(w.word_type, WordType::Gerund))
        .count();
    let dream_concepts = word_sets
        .dreaming
        .iter()
        .filter(|w| matches!(w.word_type, WordType::Concept))
        .count();
    assert_eq!(dream_objects, 1);
    assert_eq!(dream_gerunds, 1);
    assert_eq!(dream_concepts, 1);
}

#[test]
fn test_all_words_unique() {
    let selector = create_test_selector();

    // Run multiple times to ensure randomness doesn't break uniqueness
    for _ in 0..10 {
        let word_sets = selector.select_words().unwrap();
        let mut seen = HashSet::new();

        for word in word_sets.all_words() {
            assert!(
                seen.insert(word.word.to_lowercase()),
                "Duplicate word found: {}",
                word.word
            );
        }
    }
}

#[test]
fn test_selected_words_come_from_their_category_lists() {
    let selector = create_test_selector();
    let sets = selector.select_words().unwrap();
    for word in sets.all_words() {
        let prefix = match word.word_type {
            WordType::Object => "object",
            WordType::Gerund => "gerund",
            WordType::Concept => "concept",
        };
        assert!(word.word.starts_with(prefix), "{}", word.word);
    }
    let order: Vec<WordType> = sets.all_words().iter().map(|w| w.word_type).collect();
    assert_eq!(
        order,
        vec![
            WordType::Object,
            WordType::Object,
            WordType::Object,
            WordType::Object,
            WordType::Object,
            WordType::Gerund,
            WordType::Object,
            WordType::Gerund,
            WordType::Gerund,
            WordType::Object,
            WordType::Gerund,
            WordType::Concept,
        ]
    );
}

#[test]
fn test_select_fails_with_insufficient_words() {
    let few_objects = WordSelector::new(names("o", 2), names("g", 40), names("c", 20));
    assert_eq!(
        few_objects.select_words(),
        Err(Error::InsufficientWords(WordType::Object))
    );
    assert_eq!(
        few_objects.check_sufficient(),
        Err(Error::InsufficientWords(WordType::Object))
    );

    let few_gerunds = WordSelector::new(names("o", 60), names("g", 1), names("c", 20));
    assert_eq!(
        few_gerunds.select_words(),
        Err(Error::InsufficientWords(WordType::Gerund))
    );

    let no_concepts = WordSelector::new(names("o", 60), names("g", 40), Vec::new());
    assert_eq!(
        no_concepts.select_words(),
        Err(Error::InsufficientWords(WordType::Concept))
    );

    let nothing = WordSelector::new(Vec::new(), Vec::new(), Vec::new());
    assert_eq!(
        nothing.select_words(),
        Err(Error::InsufficientWords(WordType::Object))
    );
    assert_eq!(
        nothing.generate_word_sets(),
        Err(Error::InsufficientWords(WordType::Object))
    );
}

#[test]
fn test_select_is_exhausted_when_no_unique_selection_exists() {
    // Seven object draws are made, so three objects can never be unique.
    let selector = WordSelector::new(names("o", 3), names("g", 40), names("c", 20));
    assert!(selector.check_sufficient().is_ok());
    assert_eq!(selector.select_words(), Err(Error::SelectionExhausted));
}

#[test]
fn test_select_is_exhausted_when_words_differ_only_in_case() {
    let objects = vec!["Tree".to_string(), "tree".to_string(), "TREE".to_string()];
    let selector = WordSelector::new(objects, names("g", 40), names("c", 20));
    assert_eq!(selector.select_words(), Err(Error::SelectionExhausted));
}

#[test]
fn test_minimal_catalog_with_a_unique_selection() {
    // Exactly as many words as the groups need: every draw is forced to be
    // a permutation, and only some of them are unique across groups.
    let selector = WordSelector::new(names("o", 7), names("g", 4), names("c", 1));
    match selector.select_words() {
        Ok(sets) => assert!(selector.all_words_unique(&sets)),
        Err(e) => assert_eq!(e, Error::SelectionExhausted),
    }
}

#[test]
fn test_generate_word_sets_has_the_fixed_shape() {
    let selector = create_test_selector();
    let sets = selector.generate_word_sets().unwrap();
    assert_eq!(sets.easy.len(), 3);
    assert_eq!(sets.medium.len(), 3);
    assert_eq!(sets.hard.len(), 3);
    assert_eq!(sets.dreaming.len(), 3);
    let easy: HashSet<&String> = sets.easy.iter().map(|w| &w.word).collect();
    assert_eq!(easy.len(), 3);
    assert_ne!(sets.medium[0].word, sets.medium[1].word);
    assert_ne!(sets.hard[1].word, sets.hard[2].word);
}

#[test]
fn test_all_words_unique_detects_exact_and_case_duplicates() {
    let selector = create_test_selector();
    let unique = sets_of([
        "a", "b", "c", "d", "e", "f", "g", "h", "i", "j", "k", "l",
    ]);
    assert!(selector.all_words_unique(&unique));

    let exact = sets_of([
        "a", "b", "c", "d", "e", "f", "g", "h", "i", "j", "k", "a",
    ]);
    assert!(!selector.all_words_unique(&exact));

    let by_case = sets_of([
        "a", "b", "c", "d", "e", "f", "g", "h", "i", "J", "k", "j",
    ]);
    assert!(!selector.all_words_unique(&by_case));

    let neighbours = sets_of([
        "a", "A", "c", "d", "e", "f", "g", "h", "i", "j", "k", "l",
    ]);
    assert!(!selector.all_words_unique(&neighbours));
}

#[test]
fn test_all_words_lists_the_groups_in_order() {
    let sets = sets_of([
        "a", "b", "c", "d", "e", "f", "g", "h", "i", "j", "k", "l",
    ]);
    let all: Vec<String> = sets.all_words().into_iter().map(|w| w.word).collect();
    assert_eq!(
        all,
        vec!["a", "b", "c", "d", "e", "f", "g", "h", "i", "j", "k", "l"]
    );
}

#[test]
fn test_tag_words_gives_each_text_the_category() {
    let tagged = tag_words(&vec!["x".to_string(), "y".to_string()], WordType::Gerund);
    assert_eq!(
        tagged,
        vec![word("x", WordType::Gerund), word("y", WordType::Gerund)]
    );
    assert!(tag_words(&Vec::new(), WordType::Object).is_empty());
}

#[test]
fn test_parse_word_list_reads_json_array() {
    assert_eq!(
        parse_word_list("[\"apple\",\"banana\"]").unwrap(),
        vec!["apple", "banana"]
    );
    assert_eq!(parse_word_list("[]").unwrap(), Vec::<String>::new());
    assert_eq!(
        parse_word_list(" [ \"a\\\"b\" ] ").unwrap(),
        vec!["a\"b"]
    );
}

#[test]
fn test_parse_word_list_rejects_other_json() {
    assert!(matches!(
        parse_word_list("{\"a\":1}"),
        Err(Error::Serialization(_))
    ));
    assert!(matches!(
        parse_word_list("[1,2]"),
        Err(Error::Serialization(_))
    ));
    assert!(matches!(
        parse_word_list("not json"),
        Err(Error::Serialization(_))
    ));
    assert!(matches!(parse_word_list(""), Err(Error::Serialization(_))));
}

#[test]
fn test_selector_from_json() {
    let selector = WordSelector::from_json(
        "[\"o1\",\"o2\",\"o3\",\"o4\",\"o5\",\"o6\",\"o7\",\"o8\",\"o9\",\"o10\",\"o11\",\"o12\",\"o13\",\"o14\",\"o15\",\"o16\",\"o17\",\"o18\",\"o19\",\"o20\",\"o21\",\"o22\",\"o23\",\"o24\",\"o25\",\"o26\",\"o27\",\"o28\",\"o29\",\"o30\"]",
        "[\"g1\",\"g2\",\"g3\",\"g4\",\"g5\",\"g6\",\"g7\",\"g8\",\"g9\",\"g10\",\"g11\",\"g12\",\"g13\",\"g14\",\"g15\",\"g16\",\"g17\",\"g18\",\"g19\",\"g20\"]",
        "[\"c1\",\"c2\"]",
    )
    .unwrap();
    let sets = selector.select_words().unwrap();
    assert!(sets.easy.iter().all(|w| w.word.starts_with('o')));
    assert!(sets.dreaming[2].word.starts_with('c'));

    assert!(matches!(
        WordSelector::from_json("[]", "oops", "[]"),
        Err(Error::Serialization(_))
    ));
}

#[test]
fn test_judge_accepts_redraws_and_gives_up() {
    let selector = create_test_selector();
    assert_eq!(MAX_ATTEMPTS, 100);
    let unique = [
        "a", "b", "c", "d", "e", "f", "g", "h", "i", "j", "k", "l",
    ];
    let repeated = [
        "a", "b", "c", "d", "e", "f", "g", "h", "i", "j", "k", "A",
    ];
    assert_eq!(
        selector.judge(sets_of(unique), 1),
        SelectionVerdict::Accepted(sets_of(unique))
    );
    assert_eq!(
        selector.judge(sets_of(unique), 100),
        SelectionVerdict::Accepted(sets_of(unique))
    );
    assert_eq!(
        selector.judge(sets_of(repeated), 1),
        SelectionVerdict::Redraw
    );
    assert_eq!(
        selector.judge(sets_of(repeated), 99),
        SelectionVerdict::Redraw
    );
    assert_eq!(
        selector.judge(sets_of(repeated), 100),
        SelectionVerdict::Exhausted
    );
}
